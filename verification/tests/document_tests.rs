use hector::{Document, Position};

fn lines(doc: &Document) -> Vec<String> {
    let mut out = Vec::new();
    for i in 0..doc.len() {
        out.push(doc.row(i).unwrap().as_str().to_string());
    }
    out
}

#[test]
fn default_document_is_empty_and_unnamed() {
    let doc = Document::default();
    assert_eq!(doc.len(), 0);
    assert!(doc.is_empty());
    assert!(doc.row(0).is_none());
    assert_eq!(doc.get_file_name(), "Default-Buffer");
}

#[test]
fn from_text_records_the_name() {
    let doc = Document::from_text("notes.txt", "a\n");
    assert_eq!(doc.get_file_name(), "notes.txt");
}

#[test]
fn from_text_empty_file_has_no_rows() {
    let doc = Document::from_text("empty", "");
    assert_eq!(doc.len(), 0);
    assert!(doc.is_empty());
}

#[test]
fn from_text_one_row_per_terminator() {
    let doc = Document::from_text("f", "one\ntwo\nthree\n");
    assert_eq!(doc.len(), 3);
    assert!(!doc.is_empty());
    assert_eq!(lines(&doc), vec!["one", "two", "three"]);
}

#[test]
fn from_text_keeps_a_trailing_partial_line() {
    let doc = Document::from_text("f", "one\ntwo");
    assert_eq!(lines(&doc), vec!["one", "two"]);
}

#[test]
fn from_text_keeps_empty_lines() {
    let doc = Document::from_text("f", "\n\na\n\n");
    assert_eq!(lines(&doc), vec!["", "", "a", ""]);
    let single = Document::from_text("f", "\n");
    assert_eq!(lines(&single), vec![""]);
}

#[test]
fn from_text_drops_carriage_return_before_line_feed() {
    let doc = Document::from_text("f", "one\r\ntwo\r\n\r\nlast\r");
    assert_eq!(lines(&doc), vec!["one", "two", "", "last\r"]);
    let inner = Document::from_text("f", "a\rb\r\r\n");
    assert_eq!(lines(&inner), vec!["a\rb\r"]);
}

#[test]
fn from_text_agrees_with_std_lines() {
    let samples = [
        "",
        "\n",
        "a",
        "a\n",
        "a\nb",
        "a\r\nb\r\n",
        "\r\n\r\n",
        "\r",
        "x\r\ry\n\rz",
        "héllo\nwörld\n",
        "tail\r",
    ];
    for text in samples {
        let doc = Document::from_text("f", text);
        let expected: Vec<String> = text.lines().map(|l| l.to_string()).collect();
        assert_eq!(lines(&doc), expected);
    }
}

#[test]
fn row_returns_rows_in_order_and_none_past_the_end() {
    let doc = Document::from_text("f", "r0\nr1\nr2\n");
    assert_eq!(doc.row(0).unwrap().as_str(), "r0");
    assert_eq!(doc.row(1).unwrap().as_str(), "r1");
    assert_eq!(doc.row(2).unwrap().as_str(), "r2");
    assert!(doc.row(3).is_none());
    assert!(doc.row(usize::MAX).is_none());
}

#[test]
fn insert_into_existing_row() {
    let mut doc = Document::from_text("f", "hello\nworld\n");
    doc.insert(&Position { x: 5, y: 0 }, '!');
    assert_eq!(doc.row(0).unwrap().as_str(), "hello!");
    assert_eq!(doc.row(1).unwrap().as_str(), "world");
    assert_eq!(doc.len(), 2);
}

#[test]
fn insert_into_empty_document() {
    let mut doc = Document::default();
    doc.insert(&Position { x: 0, y: 0 }, 'a');
    assert_eq!(doc.len(), 1);
    assert_eq!(doc.row(0).unwrap().as_str(), "a");
    assert!(!doc.is_empty());
}

#[test]
fn insert_at_line_after_last_appends_a_row() {
    let mut doc = Document::from_text("f", "one\ntwo\n");
    doc.insert(&Position { x: 0, y: 2 }, 'z');
    assert_eq!(lines(&doc), vec!["one", "two", "z"]);
}

#[test]
fn insert_at_line_after_last_ignores_the_column() {
    let mut doc = Document::from_text("f", "one\n");
    doc.insert(&Position { x: 7, y: 1 }, 'q');
    assert_eq!(lines(&doc), vec!["one", "q"]);
}

#[test]
fn insert_below_the_buffer_is_ignored() {
    let mut doc = Document::from_text("f", "one\ntwo\n");
    doc.insert(&Position { x: 0, y: 3 }, 'z');
    doc.insert(&Position { x: 0, y: usize::MAX }, 'z');
    assert_eq!(lines(&doc), vec!["one", "two"]);
    assert_eq!(doc.get_file_name(), "f");
}

#[test]
fn insert_past_the_end_of_a_row_is_ignored() {
    let mut doc = Document::from_text("f", "one\ntwo\n");
    doc.insert(&Position { x: 4, y: 1 }, 'z');
    assert_eq!(lines(&doc), vec!["one", "two"]);
}

#[test]
fn insert_leaves_other_rows_unchanged() {
    let mut doc = Document::from_text("f", "aa\nbb\ncc\n");
    doc.insert(&Position { x: 1, y: 1 }, 'X');
    assert_eq!(lines(&doc), vec!["aa", "bXb", "cc"]);
    assert_eq!(doc.row(1).unwrap().len(), 3);
}

#[test]
fn from_read_falls_back_to_the_empty_buffer() {
    let failed = Document::from_read("missing.txt", None);
    assert_eq!(failed.len(), 0);
    assert_eq!(failed.get_file_name(), "Default-Buffer");
    let loaded = Document::from_read("here.txt", Some("a\nb\n"));
    assert_eq!(lines(&loaded), vec!["a", "b"]);
    assert_eq!(loaded.get_file_name(), "here.txt");
}

#[test]
fn no_row_holds_a_line_feed() {
    let doc = Document::from_text("f", "a\n\nb\r\nc\n\n");
    assert_eq!(doc.len(), 5);
    for row in lines(&doc) {
        assert!(!row.contains('\n'));
    }
}
