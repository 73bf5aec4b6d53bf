//! The fixed set of characters that a glyph cache holds.

use vstd::prelude::*;

verus! {

/// First code of the printable ASCII range.
pub const ASCII_FIRST: u32 = 0x0020;

/// Last code of the printable ASCII range.
pub const ASCII_LAST: u32 = 0x007F;

/// First code of the block-element range.
pub const BLOCK_FIRST: u32 = 0x2580;

/// Last code of the block-element range.
pub const BLOCK_LAST: u32 = 0x259F;

/// Number of characters in the ASCII part of the repertoire.
pub const ASCII_LEN: usize = 96;

/// Number of characters in the repertoire.
pub const REPERTOIRE_LEN: usize = 128;

/// Whether `code` is the code of a repertoire character.
pub open spec fn code_in_repertoire(code: u32) -> bool {
    ||| ASCII_FIRST <= code <= ASCII_LAST
    ||| BLOCK_FIRST <= code <= BLOCK_LAST
}

/// Whether `c` belongs to the repertoire: printable ASCII or a block element.
pub open spec fn in_repertoire(c: char) -> bool {
    code_in_repertoire(c as u32)
}

/// Position of a repertoire code when the repertoire is listed by
/// ascending code.
pub open spec fn code_slot(code: u32) -> int {
    if code <= ASCII_LAST {
        code - ASCII_FIRST
    } else {
        ASCII_LEN + (code - BLOCK_FIRST)
    }
}

/// Position of a repertoire character when the repertoire is listed by
/// ascending code.
pub open spec fn slot_of(c: char) -> int {
    code_slot(c as u32)
}

/// Code of the character at position `slot` of the repertoire.
pub open spec fn code_at(slot: int) -> int {
    if slot < ASCII_LEN {
        ASCII_FIRST + slot
    } else {
        BLOCK_FIRST + (slot - ASCII_LEN)
    }
}

/// The character at position `slot` of the repertoire.
pub open spec fn char_at(slot: int) -> char {
    code_at(slot) as char
}

/// The repertoire, by ascending code.
pub open spec fn repertoire_seq() -> Seq<char> {
    Seq::new(REPERTOIRE_LEN as nat, |slot: int| char_at(slot))
}

/// Every position below the repertoire's length names a repertoire
/// character, and `slot_of` leads back to the position.
pub proof fn lemma_char_at_in_repertoire(slot: int)
    requires
        0 <= slot < REPERTOIRE_LEN,
    ensures
        char_at(slot) as u32 == code_at(slot),
        in_repertoire(char_at(slot)),
        slot_of(char_at(slot)) == slot,
{
}

/// Every repertoire character has a position below the repertoire's length,
/// and `char_at` leads back to the character.
pub proof fn lemma_slot_of_in_range(c: char)
    requires
        in_repertoire(c),
    ensures
        0 <= slot_of(c) < REPERTOIRE_LEN,
        char_at(slot_of(c)) == c,
{
}

/// Positions follow the order of the codes.
pub proof fn lemma_slots_ascend(a: int, b: int)
    requires
        0 <= a < b < REPERTOIRE_LEN,
    ensures
        (char_at(a) as u32) < (char_at(b) as u32),
{
    lemma_char_at_in_repertoire(a);
    lemma_char_at_in_repertoire(b);
}

/// The repertoire lists every repertoire character, and each of them once.
pub proof fn lemma_repertoire_lists_each_once(c: char)
    ensures
        in_repertoire(c) <==> repertoire_seq().contains(c),
        forall|a: int, b: int|
            0 <= a < b < REPERTOIRE_LEN ==> repertoire_seq()[a] != repertoire_seq()[b],
{
    if in_repertoire(c) {
        lemma_slot_of_in_range(c);
        assert(repertoire_seq()[slot_of(c)] == c);
    }
    if repertoire_seq().contains(c) {
        let slot = choose|slot: int|
            0 <= slot < repertoire_seq().len() && repertoire_seq()[slot] == c;
        lemma_char_at_in_repertoire(slot);
    }
    assert forall|a: int, b: int| 0 <= a < b < REPERTOIRE_LEN implies repertoire_seq()[a]
        != repertoire_seq()[b] by {
        lemma_slots_ascend(a, b);
    }
}

/// `char::from_u32` of std: the character whose code is `i`, for every `i`
/// that is a Unicode scalar value, and `None` for the surrogates and for
/// numbers above `0x10FFFF`.
pub assume_specification[ char::from_u32 ](i: u32) -> (c: Option<char>)
    ensures
        (i <= 0xD7FF || 0xE000 <= i <= 0x10FFFF) ==> c == Some(i as char),
        (0xD7FF < i < 0xE000 || 0x10FFFF < i) ==> c is None,
;

/// Tells whether `c` belongs to the repertoire.
pub fn is_supported(c: char) -> (supported: bool)
    ensures
        supported == in_repertoire(c),
{
    let code: u32 = c as u32;
    (ASCII_FIRST <= code && code <= ASCII_LAST) || (BLOCK_FIRST <= code && code <= BLOCK_LAST)
}

/// The character at position `slot` of the repertoire, or `None` where the
/// repertoire has no such position.
pub fn character(slot: usize) -> (c: Option<char>)
    ensures
        slot < REPERTOIRE_LEN ==> c == Some(char_at(slot as int)),
        slot >= REPERTOIRE_LEN ==> c is None,
{
    if slot < ASCII_LEN {
        char::from_u32(ASCII_FIRST + slot as u32)
    } else if slot < REPERTOIRE_LEN {
        char::from_u32(BLOCK_FIRST + (slot - ASCII_LEN) as u32)
    } else {
        None
    }
}

/// All characters of the repertoire, by ascending code.
pub fn repertoire() -> (chars: Vec<char>)
    ensures
        chars@ == repertoire_seq(),
{
    let mut chars: Vec<char> = Vec::new();
    let mut slot: usize = 0;
    while slot < REPERTOIRE_LEN
        invariant
            slot <= REPERTOIRE_LEN,
            chars@.len() == slot,
            forall|i: int| 0 <= i < slot ==> chars@[i] == char_at(i),
        decreases REPERTOIRE_LEN - slot,
    {
        match character(slot) {
            Some(c) => chars.push(c),
            None => {},
        }
        slot = slot + 1;
    }
    chars
}

} // verus!
