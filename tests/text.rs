use oh_my_shell::text::{is_space_char, split_segments, token_is, tokenize};

#[test]
fn tokenize_on_any_blank() {
    assert_eq!(tokenize("  a\tbb \n ccc  "), vec!["a", "bb", "ccc"]);
    assert_eq!(tokenize("x\u{3000}y"), vec!["x", "y"]);
    assert!(tokenize("").is_empty());
    assert!(tokenize(" \t ").is_empty());
}

#[test]
fn blank_characters() {
    assert!(is_space_char(' '));
    assert!(is_space_char('\t'));
    assert!(is_space_char('\u{a0}'));
    assert!(!is_space_char('a'));
    assert!(!is_space_char('|'));
    for u in 0..=0x10FFFFu32 {
        if let Some(c) = char::from_u32(u) {
            assert_eq!(is_space_char(c), c.is_whitespace(), "U+{:04X}", u);
        }
    }
}

#[test]
fn split_on_bars() {
    assert_eq!(split_segments("a | b|c"), vec!["a ", " b", "c"]);
    assert_eq!(split_segments(""), vec![""]);
    assert_eq!(split_segments("|"), vec!["", ""]);
}

#[test]
fn single_character_words() {
    assert!(token_is("<", '<'));
    assert!(!token_is("<<", '<'));
    assert!(!token_is("", '<'));
    assert!(!token_is(">", '<'));
}
