use spotify_oauth::text::{char_is_space, split_words, str_eq};

#[test]
fn str_eq_compares_characters() {
    assert!(str_eq("", ""));
    assert!(str_eq("state", "state"));
    assert!(!str_eq("state", "State"));
    assert!(!str_eq("state", "stat"));
    assert!(!str_eq("stat", "state"));
    assert!(!str_eq("", " "));
    assert!(str_eq("Été+hiver", "Été+hiver"));
    assert!(!str_eq("Été", "Ete"));
}

#[test]
fn white_space_is_the_unicode_property() {
    let spaces = [
        '\u{9}', '\u{A}', '\u{B}', '\u{C}', '\u{D}', ' ', '\u{85}', '\u{A0}', '\u{1680}', '\u{2000}',
        '\u{2001}', '\u{2002}', '\u{2003}', '\u{2004}', '\u{2005}', '\u{2006}', '\u{2007}', '\u{2008}',
        '\u{2009}', '\u{200A}', '\u{2028}', '\u{2029}', '\u{202F}', '\u{205F}', '\u{3000}',
    ];
    for c in spaces {
        assert!(char_is_space(c));
    }
    for c in ['a', '-', '0', '\u{0}', '\u{8}', '\u{E}', '\u{1F}', '\u{180E}', '\u{200B}', '\u{FEFF}'] {
        assert!(!char_is_space(c));
    }
}

#[test]
fn white_space_agrees_with_std() {
    let mut n: u32 = 0;
    while n <= 0x11_0000 {
        if let Some(c) = char::from_u32(n) {
            assert_eq!(char_is_space(c), c.is_whitespace());
        }
        n += 1;
    }
}

#[test]
fn split_words_finds_the_runs() {
    let none: Vec<String> = vec![];
    assert_eq!(split_words(""), none);
    assert_eq!(split_words("   "), none);
    assert_eq!(split_words("a"), vec!["a"]);
    assert_eq!(split_words("ab cd"), vec!["ab", "cd"]);
    assert_eq!(split_words("  ab \t cd\n"), vec!["ab", "cd"]);
    assert_eq!(split_words("a b  c   d"), vec!["a", "b", "c", "d"]);
    assert_eq!(split_words("é\u{A0}ü"), vec!["é", "ü"]);
}

#[test]
fn split_words_agrees_with_std() {
    for text in ["", " ", "x", " x", "x ", "user-read-private user-read-email", "\u{2003}a\u{2003}\u{2003}b", "a\u{200B}b c"] {
        let expected: Vec<String> = text.split_whitespace().map(|word| word.to_string()).collect();
        assert_eq!(split_words(text), expected);
    }
}
