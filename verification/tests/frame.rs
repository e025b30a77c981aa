use text_viewer::buffer::TextBuffer;
use text_viewer::cursor::Cursor;
use text_viewer::frame::compose_frame;
use text_viewer::frame::line_label;
use text_viewer::frame::print_buffer;
use text_viewer::frame::Frame;
use text_viewer::frame::Viewport;

fn compose(
    buffer: &TextBuffer,
    cursor: Cursor,
    gutter_width: usize,
    height: usize,
    width: usize,
) -> Frame {
    compose_frame(buffer, cursor, Viewport { height, width, gutter_width })
}

#[test]
fn viewport_counts_rows_and_columns() {
    let viewport = Viewport { height: 24, width: 80, gutter_width: 3 };
    assert_eq!(viewport.visible_rows(0), 0);
    assert_eq!(viewport.visible_rows(5), 5);
    assert_eq!(viewport.visible_rows(24), 24);
    assert_eq!(viewport.visible_rows(25), 24);
    assert_eq!(viewport.visible_rows(usize::MAX), 24);
    assert_eq!(viewport.content_columns(), 76);
    for width in 0..=4 {
        assert_eq!(Viewport { height: 1, width, gutter_width: 3 }.content_columns(), 0);
    }
    assert_eq!(Viewport { height: 1, width: 5, gutter_width: 3 }.content_columns(), 1);
    assert_eq!(Viewport { height: 1, width: 5, gutter_width: usize::MAX }.content_columns(), 0);
    let widest = Viewport { height: 1, width: usize::MAX, gutter_width: 0 };
    assert_eq!(widest.content_columns(), usize::MAX - 1);
}

#[test]
fn viewport_takes_its_gutter_from_the_line_count() {
    let three = TextBuffer::load(b"ab\n\nxyz").unwrap();
    assert_eq!(
        Viewport::for_buffer(&three, 24, 80),
        Viewport { height: 24, width: 80, gutter_width: 1 }
    );
    let ten = TextBuffer::load("x\n".repeat(9).as_bytes()).unwrap();
    assert_eq!(ten.line_count(), 10);
    assert_eq!(Viewport::for_buffer(&ten, 5, 7).gutter_width, 2);
    let nine = TextBuffer::load("x\n".repeat(8).as_bytes()).unwrap();
    assert_eq!(Viewport::for_buffer(&nine, 5, 7).gutter_width, 1);
}

#[test]
fn label_is_right_aligned_with_a_space_after() {
    assert_eq!(line_label(1, 1), "1 ");
    assert_eq!(line_label(7, 3), "  7 ");
    assert_eq!(line_label(42, 3), " 42 ");
    assert_eq!(line_label(123, 3), "123 ");
}

#[test]
fn label_of_a_number_wider_than_the_gutter_is_not_cut() {
    assert_eq!(line_label(1234, 2), "1234 ");
    assert_eq!(line_label(5, 0), "5 ");
}

#[test]
fn label_agrees_with_std_formatting() {
    for width in 0..6usize {
        for number in [0usize, 1, 9, 10, 99, 100, 12_345, 999_999] {
            assert_eq!(line_label(number, width), format!("{:1$} ", number, width));
        }
    }
}

#[test]
fn frame_has_a_row_for_each_line_that_fits() {
    let buffer = TextBuffer::load(b"ab\n\nxyz").unwrap();
    let cursor = Cursor { row: 0, col: 2 };
    let frame = compose(&buffer, cursor, 1, 24, 80);
    assert_eq!(frame.rows.len(), 3);
    assert_eq!(frame.rows[0].label, "1 ");
    assert_eq!(frame.rows[0].content, "ab");
    assert_eq!(frame.rows[1].label, "2 ");
    assert_eq!(frame.rows[1].content, "");
    assert_eq!(frame.rows[2].label, "3 ");
    assert_eq!(frame.rows[2].content, "xyz");
    assert_eq!(frame.cursor, cursor);
}

#[test]
fn frame_stops_at_the_terminal_height() {
    let buffer = TextBuffer::load(b"a\nb\nc\nd\ne").unwrap();
    let cursor = Cursor { row: 4, col: 2 };
    let frame = compose(&buffer, cursor, 1, 2, 80);
    assert_eq!(frame.rows.len(), 2);
    assert_eq!(frame.rows[0].content, "a");
    assert_eq!(frame.rows[1].content, "b");
    assert_eq!(frame.cursor, cursor);
    assert_eq!(compose(&buffer, cursor, 1, 0, 80).rows.len(), 0);
    assert_eq!(compose(&buffer, cursor, 1, 5, 80).rows.len(), 5);
    assert_eq!(compose(&buffer, cursor, 1, 6, 80).rows.len(), 5);
}

#[test]
fn long_line_is_cut_to_the_columns_after_the_gutter() {
    let line: String = (0..100).map(|i| char::from(b'a' + (i % 26) as u8)).collect();
    let buffer = TextBuffer::load(line.as_bytes()).unwrap();
    let cursor = Cursor { row: 0, col: 2 };
    let frame = compose(&buffer, cursor, 1, 24, 80);
    assert_eq!(frame.rows[0].label, "1 ");
    assert_eq!(frame.rows[0].content.chars().count(), 78);
    assert_eq!(frame.rows[0].content, line[..78].to_string());
    let narrow = compose(&buffer, cursor, 1, 24, 10);
    assert_eq!(narrow.rows[0].content, "abcdefgh");
}

#[test]
fn line_that_fits_is_drawn_whole() {
    let buffer = TextBuffer::load("héllo\nwörld!".as_bytes()).unwrap();
    let cursor = Cursor { row: 0, col: 2 };
    let frame = compose(&buffer, cursor, 1, 24, 8);
    assert_eq!(frame.rows[0].content, "héllo");
    assert_eq!(frame.rows[1].content, "wörld!");
    let tight = compose(&buffer, cursor, 1, 24, 7);
    assert_eq!(tight.rows[0].content, "héllo");
    assert_eq!(tight.rows[1].content, "wörld");
}

#[test]
fn terminal_no_wider_than_the_gutter_shows_no_content() {
    let buffer = TextBuffer::load(b"abc\ndef").unwrap();
    let cursor = Cursor { row: 0, col: 2 };
    for width in 0..3usize {
        let frame = compose(&buffer, cursor, 1, 24, width);
        assert_eq!(frame.rows.len(), 2);
        assert_eq!(frame.rows[0].label, "1 ");
        assert_eq!(frame.rows[0].content, "");
        assert_eq!(frame.rows[1].content, "");
    }
    assert_eq!(compose(&buffer, cursor, 1, 24, 3).rows[0].content, "a");
}

#[test]
fn labels_are_padded_to_the_gutter() {
    let mut text = String::new();
    for i in 1..=12 {
        text.push_str(&format!("row {}", i));
        if i < 12 {
            text.push('\n');
        }
    }
    let buffer = TextBuffer::load(text.as_bytes()).unwrap();
    let frame = compose(&buffer, Cursor { row: 0, col: 3 }, 2, 24, 80);
    assert_eq!(frame.rows.len(), 12);
    assert_eq!(frame.rows[0].label, " 1 ");
    assert_eq!(frame.rows[8].label, " 9 ");
    assert_eq!(frame.rows[9].label, "10 ");
    assert_eq!(frame.rows[11].label, "12 ");
    assert_eq!(frame.rows[11].content, "row 12");
}

#[test]
fn print_buffer_clamps_before_it_composes() {
    let buffer = TextBuffer::load(b"ab\n\nxyz").unwrap();
    let mut cursor = Cursor { row: 7, col: -4 };
    let frame = print_buffer(&buffer, &mut cursor, 1, 24, 80);
    assert_eq!(cursor, Cursor { row: 2, col: 2 });
    assert_eq!(frame.cursor, Cursor { row: 2, col: 2 });
    assert_eq!(frame.rows.len(), 3);
    let mut far = Cursor { row: 2, col: 900 };
    let again = print_buffer(&buffer, &mut far, 1, 1, 3);
    assert_eq!(far, Cursor { row: 2, col: 3 });
    assert_eq!(again.cursor, far);
    assert_eq!(again.rows.len(), 1);
    assert_eq!(again.rows[0].content, "a");
}
