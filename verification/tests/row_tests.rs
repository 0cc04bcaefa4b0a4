use hector::Row;

#[test]
fn row_from_keeps_the_line_verbatim() {
    let row = Row::from("hello world");
    assert_eq!(row.as_str(), "hello world");
    assert_eq!(row.len(), 11);
    assert!(!row.is_empty());
}

#[test]
fn row_default_is_empty() {
    let row = Row::default();
    assert_eq!(row.as_str(), "");
    assert_eq!(row.len(), 0);
    assert!(row.is_empty());
}

#[test]
fn row_from_chars_keeps_the_cells() {
    let row = Row::from_chars(&vec!['a', 'é', 'z']);
    assert_eq!(row.as_str(), "aéz");
    assert_eq!(row.len(), 3);
}

#[test]
fn row_insert_in_the_middle() {
    let mut row = Row::from("helo");
    row.insert(3, 'l');
    assert_eq!(row.as_str(), "hello");
}

#[test]
fn row_insert_at_start_and_end() {
    let mut row = Row::from("bc");
    row.insert(0, 'a');
    assert_eq!(row.as_str(), "abc");
    row.insert(3, 'd');
    assert_eq!(row.as_str(), "abcd");
    assert_eq!(row.len(), 4);
}

#[test]
fn row_insert_past_the_end_is_ignored() {
    let mut row = Row::from("abc");
    row.insert(4, 'x');
    assert_eq!(row.as_str(), "abc");
    row.insert(usize::MAX, 'x');
    assert_eq!(row.as_str(), "abc");
}

#[test]
fn row_insert_counts_characters_not_bytes() {
    let mut row = Row::from("héé");
    row.insert(2, 'x');
    assert_eq!(row.as_str(), "héxé");
    row.insert(4, '!');
    assert_eq!(row.as_str(), "héxé!");
}

#[test]
fn row_render_clips_at_both_ends() {
    let row = Row::from("hello world");
    assert_eq!(row.render(0, 5), "hello");
    assert_eq!(row.render(6, 11), "world");
    assert_eq!(row.render(6, 100), "world");
    assert_eq!(row.render(11, 20), "");
    assert_eq!(row.render(12, 20), "");
    assert_eq!(row.render(3, 3), "");
    assert_eq!(row.render(5, 2), "");
    assert_eq!(row.render(0, usize::MAX), "hello world");
}

#[test]
fn row_render_whole_row_is_the_content() {
    let row = Row::from("some text");
    assert_eq!(row.render(0, row.len()), "some text");
    let empty = Row::default();
    assert_eq!(empty.render(0, 0), "");
}

#[test]
fn row_render_never_splits_a_character() {
    let row = Row::from("añb€c");
    assert_eq!(row.render(1, 2), "ñ");
    assert_eq!(row.render(1, 4), "ñb€");
    assert_eq!(row.render(3, 9), "€c");
    assert_eq!(row.render(0, 5), "añb€c");
}

#[test]
fn row_render_is_idempotent_and_bounded() {
    let row = Row::from("añb€c and more");
    for start in 0..16usize {
        for end in start..18usize {
            let once = row.render(start, end);
            assert!(once.chars().count() <= end - start);
            let again = Row::from(once.as_str()).render(0, end - start);
            assert_eq!(again, once);
            assert_eq!(row.render(start, end), once);
        }
    }
}
