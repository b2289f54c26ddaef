use vimania_uri_rs::reverse_line;
use vimania_uri_rs::text::trim;

#[test]
fn reverse_line_reverses_characters() {
    assert_eq!(reverse_line("abc"), "cba");
    assert_eq!(reverse_line(""), "");
    assert_eq!(reverse_line("a"), "a");
    assert_eq!(reverse_line("ab cd"), "dc ba");
}

#[test]
fn reverse_line_twice_is_identity() {
    for line in ["", "abc", "hello world", "12321"] {
        assert_eq!(reverse_line(&reverse_line(line)), line);
    }
}

#[test]
fn trim_removes_outer_whitespace_only() {
    assert_eq!(trim("  Example Title \n"), "Example Title");
    assert_eq!(trim("\t\r\n "), "");
    assert_eq!(trim(""), "");
    assert_eq!(trim("no-outer-space"), "no-outer-space");
    assert_eq!(trim("inner  space kept"), "inner  space kept");
}

#[test]
fn trim_covers_unicode_whitespace() {
    // No-break space, ogham space mark, line separator, ideographic
    // space: all in the White_Space set, as str::trim has it.
    let padded = "\u{a0}\u{1680}title\u{2028}\u{3000}";
    assert_eq!(trim(padded), "title");
    assert_eq!(trim(padded), padded.trim());
    // A zero-width space is not whitespace and must survive.
    assert_eq!(trim(" \u{200b} "), "\u{200b}");
    assert_eq!(trim(" \u{200b} "), " \u{200b} ".trim());
}
