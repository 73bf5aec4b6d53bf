use glyph_text::repertoire::{
    character, is_supported, repertoire, ASCII_FIRST, ASCII_LAST, ASCII_LEN, BLOCK_FIRST,
    BLOCK_LAST, REPERTOIRE_LEN,
};

#[test]
fn repertoire_lists_both_ranges_by_ascending_code() {
    let chars = repertoire();
    assert_eq!(chars.len(), 128);
    assert_eq!(chars.len(), REPERTOIRE_LEN);
    for (slot, c) in chars.iter().enumerate() {
        let expected = if slot < 96 { 0x20 + slot as u32 } else { 0x2580 + (slot as u32 - 96) };
        assert_eq!(*c as u32, expected);
    }
    for pair in chars.windows(2) {
        assert!(pair[0] < pair[1]);
    }
}

#[test]
fn repertoire_holds_only_supported_characters() {
    for c in repertoire() {
        assert!(is_supported(c));
    }
}

#[test]
fn every_supported_character_is_listed() {
    let chars = repertoire();
    for code in 0u32..0x3000 {
        if let Some(c) = char::from_u32(code) {
            assert_eq!(is_supported(c), chars.contains(&c), "code {:#x}", code);
        }
    }
}

#[test]
fn ascii_boundaries_are_inclusive() {
    assert!(!is_supported('\u{001F}'));
    assert!(is_supported('\u{0020}'));
    assert!(is_supported('\u{007F}'));
    assert!(!is_supported('\u{0080}'));
}

#[test]
fn block_element_boundaries_are_inclusive() {
    assert!(!is_supported('\u{257F}'));
    assert!(is_supported('\u{2580}'));
    assert!(is_supported('\u{259F}'));
    assert!(!is_supported('\u{25A0}'));
}

#[test]
fn characters_far_from_the_ranges_are_not_supported() {
    assert!(!is_supported('\u{0000}'));
    assert!(!is_supported('\u{00E9}'));
    assert!(!is_supported('\u{2500}'));
    assert!(!is_supported('\u{10FFFF}'));
}

#[test]
fn character_gives_the_character_of_each_position() {
    assert_eq!(character(0), Some(' '));
    assert_eq!(character(33), Some('A'));
    assert_eq!(character(95), Some('\u{007F}'));
    assert_eq!(character(96), Some('\u{2580}'));
    assert_eq!(character(127), Some('\u{259F}'));
}

#[test]
fn character_gives_nothing_beyond_the_repertoire() {
    assert_eq!(character(128), None);
    assert_eq!(character(usize::MAX), None);
}

#[test]
fn range_constants_name_the_two_ranges() {
    assert_eq!((ASCII_FIRST, ASCII_LAST), (0x0020, 0x007F));
    assert_eq!((BLOCK_FIRST, BLOCK_LAST), (0x2580, 0x259F));
    assert_eq!(ASCII_LEN, 96);
}
