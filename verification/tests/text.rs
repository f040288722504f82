use filefloat::text::{
    chars_of, contains_chars, ends_with_char_exec, escape_ps_single_quote, is_whitespace_exec,
    lower_chars, string_from_chars, trim_str, upper_str,
};

#[test]
fn trim_removes_unicode_whitespace_at_both_ends() {
    assert_eq!(trim_str("  a b \t\n"), "a b");
    assert_eq!(trim_str("\u{3000}x\u{a0}"), "x");
    assert_eq!(trim_str("   "), "");
    assert_eq!(trim_str(""), "");
    assert_eq!(trim_str("no-space"), "no-space");
    assert_eq!(trim_str("\u{85}\u{2028}inner  space\u{205f}"), "inner  space");
}

#[test]
fn whitespace_matches_char_is_whitespace() {
    for c in ['\t', '\n', '\u{b}', '\u{c}', '\r', ' ', '\u{85}', '\u{a0}', '\u{1680}', '\u{2000}', '\u{200a}', '\u{2028}', '\u{2029}', '\u{202f}', '\u{205f}', '\u{3000}', 'a', '\u{200b}', '_', '\u{feff}'] {
        assert_eq!(is_whitespace_exec(c), c.is_whitespace(), "{:?}", c);
    }
}

#[test]
fn case_folding_and_search() {
    let v = chars_of("Hello World ÄÖ");
    assert_eq!(string_from_chars(&lower_chars(&v)), "hello world ÄÖ");
    assert_eq!(upper_str("FileFloat-é"), "FILEFLOAT-é");
    assert!(contains_chars(&chars_of("File Folder"), &chars_of("Folder")));
    assert!(!contains_chars(&chars_of("File Folder"), &chars_of("folder")));
    assert!(contains_chars(&chars_of("abc"), &chars_of("")));
    assert!(contains_chars(&chars_of("abc"), &chars_of("abc")));
    assert!(!contains_chars(&chars_of("ab"), &chars_of("abc")));
    assert!(ends_with_char_exec("C:\\dir\\", '\\'));
    assert!(!ends_with_char_exec("", '/'));
}

#[test]
fn escape_doubles_quotes_and_drops_line_breaks() {
    assert_eq!(escape_ps_single_quote("it's"), "it''s");
    assert_eq!(escape_ps_single_quote("a\r\nb\nc"), "abc");
    assert_eq!(escape_ps_single_quote("''"), "''''");
    assert_eq!(escape_ps_single_quote(""), "");
    let q = "rock 'n' roll\r\n";
    assert_eq!(escape_ps_single_quote(q), q.replace('\'', "''").replace(['\r', '\n'], ""));
}

#[test]
fn escaped_query_reads_back_without_line_breaks() {
    // PowerShell reads '' inside a single-quoted literal as one quote
    let original = "O'Brien's\nfile";
    let escaped = escape_ps_single_quote(original);
    assert!(!escaped.contains('\n') && !escaped.contains('\r'));
    assert_eq!(escaped.replace("''", "'"), "O'Brien'sfile");
}
