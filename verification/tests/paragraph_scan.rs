use seltrack::errors::EngineError;
use seltrack::paragraph::scan_paragraph;
use seltrack::text16::is_blank;

fn utf16(s: &str) -> Vec<u16> {
    s.encode_utf16().collect()
}

#[test]
fn paragraph_around_caret_in_second_line() {
    // Text "alpha\nbeta gamma\n", caret at offset 9 (inside "beta"):
    // the paragraph is "beta gamma" at offsets [6, 16).
    let text = utf16("alpha\nbeta gamma\n");
    let span = scan_paragraph(&text, 9).unwrap();
    assert_eq!(span.start, 6);
    assert_eq!(span.end, 16);
    assert_eq!(&text[span.start..span.end], utf16("beta gamma").as_slice());
    assert_eq!(span.start, 6, "range_location");
    assert_eq!(span.end - span.start, 10, "range_length");
}

#[test]
fn paragraph_whole_text_without_newlines() {
    let text = utf16("one paragraph only");
    let span = scan_paragraph(&text, 7).unwrap();
    assert_eq!(span.start, 0);
    assert_eq!(span.end, text.len());
}

#[test]
fn paragraph_at_document_start() {
    let text = utf16("first\nsecond");
    let span = scan_paragraph(&text, 0).unwrap();
    assert_eq!(span.start, 0);
    assert_eq!(span.end, 5);
}

#[test]
fn paragraph_at_document_end() {
    let text = utf16("first\nsecond");
    let span = scan_paragraph(&text, text.len()).unwrap();
    assert_eq!(span.start, 6);
    assert_eq!(span.end, text.len());
}

#[test]
fn paragraph_caret_on_newline_takes_preceding_paragraph() {
    // Caret at offset 5 sits on the '\n': backward scan stays in "first".
    let text = utf16("first\nsecond");
    let span = scan_paragraph(&text, 5).unwrap();
    assert_eq!(span.start, 0);
    assert_eq!(span.end, 5);
}

#[test]
fn consecutive_newlines_give_empty_paragraph() {
    let text = utf16("first\n\nsecond");
    let r = scan_paragraph(&text, 6);
    assert!(matches!(r, Err(EngineError::EmptyParagraph)));
}

#[test]
fn whitespace_only_paragraph_is_rejected() {
    let text = utf16("first\n   \t \nsecond");
    let r = scan_paragraph(&text, 8);
    assert!(matches!(r, Err(EngineError::EmptyParagraph)));
}

#[test]
fn empty_text_gives_empty_paragraph() {
    let text: Vec<u16> = Vec::new();
    let r = scan_paragraph(&text, 0);
    assert!(matches!(r, Err(EngineError::EmptyParagraph)));
}

#[test]
fn paragraph_is_maximal() {
    // Every offset inside "beta gamma" yields the same span.
    let text = utf16("alpha\nbeta gamma\nrest");
    for caret in 6..=16 {
        let span = scan_paragraph(&text, caret).unwrap();
        assert_eq!((span.start, span.end), (6, 16), "caret {}", caret);
    }
}

#[test]
fn blank_check_matches_unicode_whitespace() {
    assert!(is_blank(&utf16("")));
    assert!(is_blank(&utf16(" \t\r\n\u{a0}\u{2003}\u{3000}")));
    assert!(!is_blank(&utf16("  x  ")));
    // Surrogate pairs (here an emoji) are never whitespace.
    assert!(!is_blank(&utf16("\u{1F600}")));
}
