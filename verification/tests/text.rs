use os_rebuild::text::{find_char, is_space, split_ascii_whitespace, split_lines, split_on, str_eq};

fn owned(items: &[&str]) -> Vec<String> {
    items.iter().map(|s| s.to_string()).collect()
}

#[test]
fn find_char_gives_the_first_position_from_the_start() {
    assert_eq!(find_char("a.b.c", 0, '.'), 1);
    assert_eq!(find_char("a.b.c", 2, '.'), 3);
    assert_eq!(find_char("a.b.c", 4, '.'), 5);
    assert_eq!(find_char("", 0, '.'), 0);
    assert_eq!(find_char("a.b", 7, '.'), 3);
}

#[test]
fn find_char_counts_characters_not_bytes() {
    assert_eq!(find_char("äö.ü", 0, '.'), 2);
}

#[test]
fn split_on_keeps_empty_pieces() {
    assert_eq!(split_on("a..b.", '.'), owned(&["a", "", "b", ""]));
    assert_eq!(split_on("", '.'), owned(&[""]));
    assert_eq!(split_on("abc", '.'), owned(&["abc"]));
}

#[test]
fn split_lines_drops_only_the_final_line_feed() {
    assert_eq!(split_lines(""), Vec::<String>::new());
    assert_eq!(split_lines("a\n"), owned(&["a"]));
    assert_eq!(split_lines("a\nb"), owned(&["a", "b"]));
    assert_eq!(split_lines("\n"), owned(&[""]));
    assert_eq!(split_lines("a\n\n"), owned(&["a", ""]));
}

#[test]
fn split_lines_agrees_with_std_on_line_feeds() {
    for text in ["", "x", "x\n", "x\ny\n", "\n\n", "flake.lock\nother.nix\n"] {
        let expected: Vec<String> = text.lines().map(|l| l.to_string()).collect();
        assert_eq!(split_lines(text), expected);
    }
}

#[test]
fn words_are_split_at_every_kind_of_ascii_whitespace() {
    assert_eq!(split_ascii_whitespace("nvd diff"), owned(&["nvd", "diff"]));
    assert_eq!(split_ascii_whitespace("  a\tb\nc\x0Cd\re  "), owned(&["a", "b", "c", "d", "e"]));
    assert_eq!(split_ascii_whitespace(""), Vec::<String>::new());
    assert_eq!(split_ascii_whitespace(" \t "), Vec::<String>::new());
}

#[test]
fn words_agree_with_std() {
    for text in ["nix store diff-closures", " x", "x ", "a  b", "\u{a0}a b", "ä ö"] {
        let expected: Vec<String> = text.split_ascii_whitespace().map(|w| w.to_string()).collect();
        assert_eq!(split_ascii_whitespace(text), expected);
    }
}

#[test]
fn only_the_five_ascii_separators_are_spaces() {
    for c in [' ', '\t', '\n', '\x0C', '\r'] {
        assert!(is_space(c));
    }
    for c in ['a', '\x0B', '\u{a0}', '0', '-'] {
        assert!(!is_space(c));
    }
}

#[test]
fn str_eq_compares_character_by_character() {
    assert!(str_eq("flake.lock", "flake.lock"));
    assert!(!str_eq("flake.lock", "flake.loc"));
    assert!(!str_eq("flake.lock", "flake.lock\n"));
    assert!(str_eq("", ""));
}
