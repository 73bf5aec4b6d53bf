//! Glyph cache and text compositor for a fixed repertoire of characters.
//!
//! The library holds the rules of the renderer: which characters can be
//! cached, how a cache is built from what a rasterizer reports, and which
//! fills and glyph draws a string turns into. A display host performs
//! those operations and reports how each one went.

pub mod error;
pub mod font;
pub mod geometry;
pub mod repertoire;
pub mod view;
