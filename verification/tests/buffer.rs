use text_viewer::buffer::BufferError;
use text_viewer::buffer::TextBuffer;

fn lines_of(text: &str) -> Vec<String> {
    let buffer = TextBuffer::load(text.as_bytes()).unwrap();
    let mut lines = Vec::new();
    for index in 0..buffer.line_count() {
        lines.push(buffer.line(index).unwrap());
    }
    lines
}

#[test]
fn empty_source_is_one_empty_line() {
    let buffer = TextBuffer::load(b"").unwrap();
    assert_eq!(buffer.line_count(), 1);
    assert_eq!(buffer.line_length(0), 0);
    assert_eq!(buffer.line(0), Ok(String::new()));
}

#[test]
fn text_without_break_is_one_line() {
    assert_eq!(lines_of("Hello"), vec!["Hello"]);
}

#[test]
fn lines_come_without_their_breaks() {
    assert_eq!(lines_of("ab\n\nxyz"), vec!["ab", "", "xyz"]);
}

#[test]
fn trailing_break_gives_a_last_empty_line() {
    assert_eq!(lines_of("Hello\nworld\n"), vec!["Hello", "world", ""]);
}

#[test]
fn carriage_return_and_line_feed_are_one_break() {
    assert_eq!(lines_of("a\r\nb\r\n"), vec!["a", "b", ""]);
}

#[test]
fn lone_carriage_return_is_a_break() {
    assert_eq!(lines_of("a\rb"), vec!["a", "b"]);
    assert_eq!(lines_of("a\r\rb"), vec!["a", "", "b"]);
    assert_eq!(lines_of("a\n\rb"), vec!["a", "", "b"]);
}

#[test]
fn other_line_breaks_are_recognised() {
    assert_eq!(lines_of("a\u{000B}b"), vec!["a", "b"]);
    assert_eq!(lines_of("a\u{000C}b"), vec!["a", "b"]);
    assert_eq!(lines_of("a\u{0085}b"), vec!["a", "b"]);
    assert_eq!(lines_of("a\u{2028}b"), vec!["a", "b"]);
    assert_eq!(lines_of("a\u{2029}b"), vec!["a", "b"]);
}

#[test]
fn tab_and_space_are_no_breaks() {
    assert_eq!(lines_of("a\tb c"), vec!["a\tb c"]);
}

#[test]
fn lengths_count_chars_not_bytes() {
    let buffer = TextBuffer::load("héllo wörld\nπ\n".as_bytes()).unwrap();
    assert_eq!(buffer.line_count(), 3);
    assert_eq!(buffer.line_length(0), 11);
    assert_eq!(buffer.line_length(1), 1);
    assert_eq!(buffer.line_length(2), 0);
}

#[test]
fn line_length_leaves_out_the_break() {
    let buffer = TextBuffer::load(b"ab\r\ncde\nf\rgh").unwrap();
    assert_eq!(buffer.line_count(), 4);
    assert_eq!(buffer.line_length(0), 2);
    assert_eq!(buffer.line_length(1), 3);
    assert_eq!(buffer.line_length(2), 1);
    assert_eq!(buffer.line_length(3), 2);
}

#[test]
fn bytes_that_are_no_text_are_refused() {
    assert!(matches!(TextBuffer::load(&[0xff, 0xfe, 0x00]), Err(BufferError::IoError)));
    assert!(matches!(TextBuffer::load(&[b'a', 0xc3]), Err(BufferError::IoError)));
    assert!(matches!(TextBuffer::load(&[0xed, 0xa0, 0x80]), Err(BufferError::IoError)));
}

#[test]
fn line_past_the_end_is_out_of_range() {
    let buffer = TextBuffer::load(b"one\ntwo").unwrap();
    assert_eq!(buffer.line(1), Ok(String::from("two")));
    assert_eq!(buffer.line(2), Err(BufferError::OutOfRange));
    assert_eq!(buffer.line(usize::MAX), Err(BufferError::OutOfRange));
}

#[test]
fn prefix_is_cut_at_the_given_length() {
    let buffer = TextBuffer::load("héllo\nab\n".as_bytes()).unwrap();
    assert_eq!(buffer.line_prefix(0, 0), "");
    assert_eq!(buffer.line_prefix(0, 2), "hé");
    assert_eq!(buffer.line_prefix(0, 5), "héllo");
    assert_eq!(buffer.line_prefix(0, 6), "héllo");
    assert_eq!(buffer.line_prefix(1, usize::MAX), "ab");
    assert_eq!(buffer.line_prefix(2, 3), "");
}

#[test]
fn long_lines_are_read_whole() {
    let first: String = (0..20_000).map(|i| char::from(b'a' + (i % 26) as u8)).collect();
    let second: String = (0..9_000).map(|i| if i % 2 == 0 { 'é' } else { 'x' }).collect();
    let text = format!("{}\r\n{}\n", first, second);
    let buffer = TextBuffer::load(text.as_bytes()).unwrap();
    assert_eq!(buffer.line_count(), 3);
    assert_eq!(buffer.line_length(0), 20_000);
    assert_eq!(buffer.line_length(1), 9_000);
    assert_eq!(buffer.line(0), Ok(first.clone()));
    assert_eq!(buffer.line(1), Ok(second.clone()));
    assert_eq!(buffer.line_prefix(0, 5_000), first[..5_000].to_string());
    assert_eq!(buffer.line_prefix(1, 3).chars().count(), 3);
}

#[test]
fn many_lines_are_counted() {
    let mut text = String::new();
    for i in 0..12_345 {
        text.push_str(&format!("line {}\n", i));
    }
    let buffer = TextBuffer::load(text.as_bytes()).unwrap();
    assert_eq!(buffer.line_count(), 12_346);
    assert_eq!(buffer.line(12_344), Ok(String::from("line 12344")));
    assert_eq!(buffer.line(12_345), Ok(String::new()));
}
