use rustops::text::{
    chars_of, contains, push_decimal, replace, same_text, starts_with,
    strip_leading_char, trimmed, white_space,
};

#[test]
fn chars_of_keeps_unicode_scalars() {
    assert_eq!(chars_of("ação"), vec!['a', 'ç', 'ã', 'o']);
    assert_eq!(chars_of(""), Vec::<char>::new());
}

#[test]
fn starts_with_cases() {
    assert!(starts_with("ERRO_FATAL: x", "ERRO_FATAL"));
    assert!(starts_with("abc", ""));
    assert!(!starts_with("ERRO", "ERRO_FATAL"));
    assert!(!starts_with("Erro: x", "ERRO"));
}

#[test]
fn same_text_cases() {
    assert!(same_text("[FIM]", "[FIM]"));
    assert!(!same_text("[FIM]", "[FIM] "));
    assert!(same_text("", ""));
}

#[test]
fn contains_cases() {
    assert!(contains("NAME  ID\nrustops:latest  abc\n", "rustops"));
    assert!(!contains("dolphin3:8b", "rustops"));
    assert!(contains("abc", ""));
    assert!(!contains("", "a"));
    assert!(contains("rustops", "rustops"));
}

#[test]
fn replace_cases() {
    assert_eq!(replace("ERRO_FATAL: x", "ERRO_FATAL: ", "Erro: "), "Erro: x");
    assert_eq!(replace("aaa", "aa", "b"), "ba");
    assert_eq!(replace("xyx", "x", ""), "y");
    assert_eq!(replace("nada", "zz", "y"), "nada");
    assert_eq!(replace("ERRO_FATAL: a ERRO_FATAL: b", "ERRO_FATAL: ", "Erro: "), "Erro: a Erro: b");
}

#[test]
fn replace_empty_pattern() {
    assert_eq!(replace("ab", "", "x"), "xaxbx");
    assert_eq!(replace("", "", "x"), "x");
}

#[test]
fn replace_agrees_with_std() {
    for (s, f, t) in [("abcabc", "bc", "X"), ("aaaa", "aa", "a"), ("çãç", "ç", "c"), ("", "a", "b"), ("ç", "", "-")] {
        assert_eq!(replace(s, f, t), s.replace(f, t));
    }
}

#[test]
fn trim_cases() {
    assert_eq!(trimmed("  olá \n"), "olá");
    assert_eq!(trimmed("\u{3000}\t"), "");
    assert_eq!(trimmed("a b"), "a b");
    for s in [" \u{85}x\u{a0}", "\u{2028}y z\u{202f}", "", "   "] {
        assert_eq!(trimmed(s), s.trim());
    }
}

#[test]
fn white_space_matches_std() {
    for c in ['\t', '\n', ' ', '\u{85}', '\u{a0}', '\u{1680}', '\u{2000}', '\u{200a}', '\u{2028}', '\u{3000}', 'a', '\u{200b}', '_'] {
        assert_eq!(white_space(c), c.is_whitespace());
    }
}

#[test]
fn strip_leading_char_cases() {
    assert_eq!(strip_leading_char("v0.1.4", 'v'), "0.1.4");
    assert_eq!(strip_leading_char("vv1", 'v'), "1");
    assert_eq!(strip_leading_char("1.0v", 'v'), "1.0v");
    assert_eq!(strip_leading_char("vvv", 'v'), "");
}

#[test]
fn push_decimal_cases() {
    let mut s = String::from("n=");
    push_decimal(&mut s, 0);
    assert_eq!(s, "n=0");
    let mut t = String::new();
    push_decimal(&mut t, 18446744073709551615);
    assert_eq!(t, "18446744073709551615");
    let mut u = String::new();
    push_decimal(&mut u, 1050);
    assert_eq!(u, "1050");
}
