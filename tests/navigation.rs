use pepe::input::{
    process_keypress, Cursor, CursorState, InputEvent, KeyCode, Modifiers, ScrollDirection,
};
use pepe::render::RenderState;
use pepe::text::{word_backward, word_forward, Document};
use pepe::EditorState;

fn clean() -> RenderState {
    RenderState { modif_row: None, modif_all: false, last_cursor: None, modif_status: false }
}

fn editor(doc_lines: usize, rows: usize) -> EditorState {
    EditorState { doc_lines, running: true, rows, columns: 76 }
}

fn state(scroll_y: usize) -> CursorState {
    CursorState { last_column: false, last_padding: 0, scroll_y }
}

fn doc_of(lines: &[&str]) -> Document {
    Document {
        path: "doc.txt".to_string(),
        inner_lines: lines.iter().map(|l| l.to_string()).collect(),
    }
}

fn numbered(n: usize) -> Document {
    Document {
        path: "doc.txt".to_string(),
        inner_lines: (0..n).map(|i| format!("line {}", i)).collect(),
    }
}

const PLAIN: Modifiers = Modifiers { shift: false, control: false };
const CTRL: Modifiers = Modifiers { shift: false, control: true };
const SHIFT: Modifiers = Modifiers { shift: true, control: false };

fn key(code: KeyCode, modifiers: Modifiers) -> Option<InputEvent> {
    Some(InputEvent::Key { code, modifiers })
}

#[test]
fn move_up_at_top_is_noop() {
    let mut c = Cursor { column: 3, row: 0 };
    let mut cs = state(0);
    let mut rs = clean();
    c.move_up(&mut cs, &mut rs);
    assert_eq!(c, Cursor { column: 3, row: 0 });
    assert_eq!(cs, state(0));
    assert_eq!(rs, clean());
    c.move_up(&mut cs, &mut rs);
    assert_eq!(c, Cursor { column: 3, row: 0 });
    assert_eq!(cs, state(0));
    assert_eq!(rs, clean());
}

#[test]
fn move_up_scrolls_from_top_row() {
    let mut c = Cursor { column: 1, row: 0 };
    let mut cs = state(5);
    let mut rs = clean();
    c.move_up(&mut cs, &mut rs);
    assert_eq!(c.row, 0);
    assert_eq!(cs.scroll_y, 4);
    assert!(rs.modif_all);
    assert_eq!(rs.last_cursor, None);
}

#[test]
fn move_up_moves_caret_only() {
    let mut c = Cursor { column: 1, row: 3 };
    let mut cs = state(5);
    let mut rs = clean();
    c.move_up(&mut cs, &mut rs);
    assert_eq!(c, Cursor { column: 1, row: 2 });
    assert_eq!(cs.scroll_y, 5);
    assert!(!rs.modif_all);
    assert_eq!(rs.last_cursor, Some(Cursor { column: 1, row: 3 }));
}

#[test]
fn move_down_at_last_line_is_noop() {
    // Short document: the last line is on row 9.
    let es = editor(10, 20);
    let mut c = Cursor { column: 0, row: 9 };
    let mut cs = state(0);
    let mut rs = clean();
    c.move_down(&es, &mut cs, &mut rs);
    assert_eq!(c, Cursor { column: 0, row: 9 });
    assert_eq!(cs, state(0));
    assert_eq!(rs, clean());
    // Long document scrolled to its end: the last line is on the bottom row.
    let es = editor(30, 20);
    let mut c = Cursor { column: 0, row: 19 };
    let mut cs = state(10);
    c.move_down(&es, &mut cs, &mut rs);
    assert_eq!(c, Cursor { column: 0, row: 19 });
    assert_eq!(cs, state(10));
    assert_eq!(rs, clean());
}

#[test]
fn move_down_scrolls_at_bottom_row() {
    let es = editor(30, 20);
    let mut c = Cursor { column: 0, row: 19 };
    let mut cs = state(0);
    let mut rs = clean();
    c.move_down(&es, &mut cs, &mut rs);
    assert_eq!(c.row, 19);
    assert_eq!(cs.scroll_y, 1);
    assert!(rs.modif_all);
}

#[test]
fn move_down_moves_caret_only() {
    let es = editor(30, 20);
    let mut c = Cursor { column: 2, row: 4 };
    let mut cs = state(0);
    let mut rs = clean();
    c.move_down(&es, &mut cs, &mut rs);
    assert_eq!(c, Cursor { column: 2, row: 5 });
    assert!(!rs.modif_all);
    assert_eq!(rs.last_cursor, Some(Cursor { column: 2, row: 4 }));
}

#[test]
fn move_down_on_empty_document_is_noop() {
    let es = editor(0, 20);
    let mut c = Cursor { column: 0, row: 0 };
    let mut cs = state(0);
    let mut rs = clean();
    c.move_down(&es, &mut cs, &mut rs);
    assert_eq!(c, Cursor { column: 0, row: 0 });
    assert_eq!(cs, state(0));
    assert_eq!(rs, clean());
}

#[test]
fn scrolls_never_pass_the_end_of_the_document() {
    let es = editor(25, 20);
    let mut c = Cursor { column: 0, row: 10 };
    let mut cs = state(0);
    let mut rs = clean();
    for _ in 0..10 {
        c.scroll_down(&es, &mut cs, &mut rs);
        assert!(cs.scroll_y + es.rows <= es.doc_lines);
    }
    assert_eq!(cs.scroll_y, 5);
    assert_eq!(c.row, 5);
    let mut c = Cursor { column: 0, row: 19 };
    let mut cs = state(0);
    for _ in 0..10 {
        c.move_down(&es, &mut cs, &mut rs);
        assert!(cs.scroll_y + es.rows <= es.doc_lines);
    }
    assert_eq!(cs.scroll_y, 5);
    let mut cs = state(5);
    c.page_down(&es, &mut cs, &mut rs);
    assert!(cs.scroll_y + es.rows <= es.doc_lines);
}

#[test]
fn page_down_then_page_up_returns_exactly_in_the_middle() {
    let es = editor(100, 20);
    let mut c = Cursor { column: 0, row: 7 };
    let mut cs = state(20);
    let mut rs = clean();
    c.page_down(&es, &mut cs, &mut rs);
    assert_eq!(cs.scroll_y, 40);
    assert_eq!(c.row, 7);
    assert!(rs.modif_all);
    c.page_up(&es, &mut cs, &mut rs);
    assert_eq!(cs.scroll_y, 20);
    assert_eq!(c.row, 7);
}

#[test]
fn page_down_then_page_up_snaps_at_the_bottom() {
    // 70 + 2 * 20 > 100: the page down cannot scroll; the cursor snaps to
    // row 100 % 20 - 1, saturated to 0, and the page up then scrolls a
    // whole page: one viewport away from the start.
    let es = editor(100, 20);
    let mut c = Cursor { column: 0, row: 7 };
    let mut cs = state(70);
    let mut rs = clean();
    c.page_down(&es, &mut cs, &mut rs);
    assert_eq!(cs.scroll_y, 70);
    assert_eq!(c.row, 0);
    assert_eq!(rs.last_cursor, Some(Cursor { column: 0, row: 7 }));
    c.page_up(&es, &mut cs, &mut rs);
    assert_eq!(cs.scroll_y, 50);
    assert!(70 - cs.scroll_y <= es.rows);
}

#[test]
fn page_down_then_page_up_snaps_at_the_top() {
    // Less than a page above: the page up snaps to the top of the document.
    let es = editor(25, 20);
    let mut c = Cursor { column: 0, row: 2 };
    let mut cs = state(5);
    let mut rs = clean();
    c.page_down(&es, &mut cs, &mut rs);
    assert_eq!(cs.scroll_y, 5);
    assert_eq!(c.row, 4);
    c.page_up(&es, &mut cs, &mut rs);
    assert_eq!(cs.scroll_y, 0);
    assert_eq!(c.row, 0);
    assert!(rs.modif_all);
}

#[test]
fn page_up_at_top_moves_caret_only() {
    let es = editor(100, 20);
    let mut c = Cursor { column: 0, row: 6 };
    let mut cs = state(0);
    let mut rs = clean();
    c.page_up(&es, &mut cs, &mut rs);
    assert_eq!(c.row, 0);
    assert!(!rs.modif_all);
    assert_eq!(rs.last_cursor, Some(Cursor { column: 0, row: 6 }));
}

#[test]
fn page_down_on_zero_rows_does_not_divide_by_zero() {
    let es = editor(10, 0);
    let mut c = Cursor { column: 0, row: 0 };
    let mut cs = state(0);
    let mut rs = clean();
    c.page_down(&es, &mut cs, &mut rs);
    assert_eq!(c.row, 0);
}

#[test]
fn scroll_up_keeps_the_document_line() {
    let es = editor(100, 20);
    let mut c = Cursor { column: 0, row: 3 };
    let mut cs = state(5);
    let mut rs = clean();
    assert!(!c.scroll_up(&es, &mut cs, &mut rs));
    assert_eq!(cs.scroll_y, 4);
    assert_eq!(c.row, 4);
    assert!(rs.modif_all);
    // On the bottom row the row saturates instead.
    let mut c = Cursor { column: 0, row: 19 };
    let mut cs = state(5);
    assert!(!c.scroll_up(&es, &mut cs, &mut rs));
    assert_eq!(cs.scroll_y, 4);
    assert_eq!(c.row, 19);
}

#[test]
fn scroll_up_at_document_top_reports_the_edge() {
    let es = editor(100, 20);
    let mut c = Cursor { column: 0, row: 3 };
    let mut cs = state(0);
    let mut rs = clean();
    assert!(c.scroll_up(&es, &mut cs, &mut rs));
    assert_eq!(c.row, 3);
    assert_eq!(cs.scroll_y, 0);
    assert_eq!(rs, clean());
}

#[test]
fn scroll_down_keeps_the_document_line() {
    let es = editor(100, 20);
    let mut c = Cursor { column: 0, row: 3 };
    let mut cs = state(0);
    let mut rs = clean();
    c.scroll_down(&es, &mut cs, &mut rs);
    assert_eq!(cs.scroll_y, 1);
    assert_eq!(c.row, 2);
    // On the top row the row saturates instead.
    let mut c = Cursor { column: 0, row: 0 };
    c.scroll_down(&es, &mut cs, &mut rs);
    assert_eq!(cs.scroll_y, 2);
    assert_eq!(c.row, 0);
}

#[test]
fn adjust_column_vertical_follows_indentation() {
    let doc = doc_of(&["    foo", "  bar"]);
    let mut c = Cursor { column: 6, row: 1 };
    let mut cs = CursorState { last_column: false, last_padding: 4, scroll_y: 0 };
    c.adjust_column_vertical(&doc, PLAIN, &mut cs);
    assert_eq!(c.column, 4);
    assert_eq!(cs.last_padding, 2);
}

#[test]
fn adjust_column_vertical_with_control_keeps_column() {
    let doc = doc_of(&["    foo", "  barbaz"]);
    let mut c = Cursor { column: 6, row: 1 };
    let mut cs = CursorState { last_column: false, last_padding: 4, scroll_y: 0 };
    c.adjust_column_vertical(&doc, CTRL, &mut cs);
    assert_eq!(c.column, 6);
    assert_eq!(cs.last_padding, 2);
    // Still clamped to the line.
    let doc = doc_of(&["    foo", "  ba"]);
    let mut c = Cursor { column: 6, row: 1 };
    let mut cs = CursorState { last_column: false, last_padding: 0, scroll_y: 0 };
    c.adjust_column_vertical(&doc, CTRL, &mut cs);
    assert_eq!(c.column, 3);
}

#[test]
fn adjust_column_vertical_grows_with_indentation() {
    let doc = doc_of(&["x", "      deeper"]);
    let mut c = Cursor { column: 1, row: 1 };
    let mut cs = CursorState { last_column: false, last_padding: 2, scroll_y: 0 };
    c.adjust_column_vertical(&doc, PLAIN, &mut cs);
    assert_eq!(c.column, 5);
    assert_eq!(cs.last_padding, 6);
}

#[test]
fn adjust_column_vertical_never_goes_negative() {
    let doc = doc_of(&["abc"]);
    let mut c = Cursor { column: 1, row: 0 };
    let mut cs = CursorState { last_column: false, last_padding: 8, scroll_y: 0 };
    c.adjust_column_vertical(&doc, PLAIN, &mut cs);
    assert_eq!(c.column, 0);
}

#[test]
fn adjust_column_vertical_sticky_end() {
    let doc = doc_of(&["a", "longer line"]);
    let mut c = Cursor { column: 0, row: 1 };
    let mut cs = CursorState { last_column: true, last_padding: 0, scroll_y: 0 };
    c.adjust_column_vertical(&doc, PLAIN, &mut cs);
    assert_eq!(c.column, 10);
    assert!(cs.last_column);
}

#[test]
fn adjust_column_vertical_empty_line_and_missing_line() {
    let doc = doc_of(&[""]);
    let mut c = Cursor { column: 7, row: 0 };
    let mut cs = state(0);
    c.adjust_column_vertical(&doc, PLAIN, &mut cs);
    assert_eq!(c.column, 0);
    let empty = doc_of(&[]);
    let mut c = Cursor { column: 7, row: 0 };
    c.adjust_column_vertical(&empty, PLAIN, &mut cs);
    assert_eq!(c.column, 0);
    assert_eq!(cs.last_padding, 0);
}

#[test]
fn adjust_column_start_goes_to_first_non_blank() {
    let doc = doc_of(&["   text", "    "]);
    let mut c = Cursor { column: 6, row: 0 };
    let mut cs = state(0);
    c.adjust_column_start(&doc, &mut cs);
    assert_eq!(c.column, 3);
    assert_eq!(cs.last_padding, 3);
    // An all-blank line: clamped to its last byte.
    let mut c = Cursor { column: 0, row: 1 };
    c.adjust_column_start(&doc, &mut cs);
    assert_eq!(c.column, 3);
    assert_eq!(cs.last_padding, 4);
}

#[test]
fn adjust_column_end_then_left_moves_left_of_last_column() {
    let doc = Some(doc_of(&["  hello"]));
    let mut c = Cursor { column: 0, row: 0 };
    let mut es = editor(1, 20);
    let mut cs = CursorState { last_column: true, last_padding: 0, scroll_y: 0 };
    let mut rs = clean();
    c.adjust_column_end(doc.as_ref().unwrap(), &mut cs);
    assert_eq!(c.column, 6);
    assert!(!cs.last_column);
    assert_eq!(cs.last_padding, 2);
    process_keypress(&doc, &mut c, &mut es, &mut cs, &mut rs, (80, 21), key(KeyCode::Left, PLAIN));
    assert_eq!(c.column, 5);
    assert!(c.column < 6);
    assert!(!cs.last_column);
}

#[test]
fn adjust_column_random_clamps_and_sticks() {
    let doc = doc_of(&["  abc"]);
    let mut c = Cursor { column: 30, row: 0 };
    let mut cs = state(0);
    c.adjust_column_random(&doc, &mut cs);
    assert_eq!(c.column, 4);
    assert!(cs.last_column);
    assert_eq!(cs.last_padding, 2);
    let mut c = Cursor { column: 1, row: 0 };
    let mut cs = state(0);
    c.adjust_column_random(&doc, &mut cs);
    assert_eq!(c.column, 1);
    assert!(!cs.last_column);
}

#[test]
fn mouse_click_far_below_clamps_to_a_document_row() {
    let doc = Some(numbered(10));
    let mut c = Cursor { column: 0, row: 0 };
    let mut es = editor(10, 20);
    let mut cs = state(0);
    let mut rs = clean();
    let ev = Some(InputEvent::MouseClick { row: 500, column: 2 });
    process_keypress(&doc, &mut c, &mut es, &mut cs, &mut rs, (80, 21), ev);
    assert_eq!(es.rows, 20);
    assert_eq!(c.row, 9);
    assert!(c.row < es.rows);
    assert!(cs.scroll_y + c.row < es.doc_lines);
    assert_eq!(c.column, 0);
    assert_eq!(rs.last_cursor, Some(Cursor { column: 0, row: 0 }));
}

#[test]
fn mouse_click_maps_the_gutter_away() {
    let doc = Some(numbered(10));
    let mut c = Cursor { column: 0, row: 0 };
    let mut es = editor(10, 20);
    let mut cs = state(0);
    let mut rs = clean();
    let ev = Some(InputEvent::MouseClick { row: 3, column: 7 });
    process_keypress(&doc, &mut c, &mut es, &mut cs, &mut rs, (80, 21), ev);
    assert_eq!(c, Cursor { column: 3, row: 3 });
    assert!(!cs.last_column);
    // Past the end of "line 3": clamped to its last byte, sticky.
    let ev = Some(InputEvent::MouseClick { row: 3, column: 70 });
    process_keypress(&doc, &mut c, &mut es, &mut cs, &mut rs, (80, 21), ev);
    assert_eq!(c, Cursor { column: 5, row: 3 });
    assert!(cs.last_column);
}

#[test]
fn word_forward_from_blank_start() {
    let line = b"  hello world";
    assert_eq!(word_forward(line, 0), 2);
    assert_eq!(word_forward(line, 2), 8);
    assert_eq!(word_forward(line, 8), 12);
}

#[test]
fn word_forward_with_control_right() {
    let doc = Some(doc_of(&["  hello world"]));
    let mut c = Cursor { column: 0, row: 0 };
    let mut es = editor(1, 20);
    let mut cs = state(0);
    let mut rs = clean();
    process_keypress(&doc, &mut c, &mut es, &mut cs, &mut rs, (80, 21), key(KeyCode::Right, CTRL));
    assert_eq!(c.column, 2);
    process_keypress(&doc, &mut c, &mut es, &mut cs, &mut rs, (80, 21), key(KeyCode::Right, CTRL));
    assert_eq!(c.column, 8);
    assert!(!cs.last_column);
    process_keypress(&doc, &mut c, &mut es, &mut cs, &mut rs, (80, 21), key(KeyCode::Right, CTRL));
    assert_eq!(c.column, 12);
    assert!(cs.last_column);
}

#[test]
fn word_backward_retreats_through_word_and_spaces() {
    // "hello world": the space is byte 5, "world" starts at byte 6.
    let line = b"hello world";
    assert_eq!(word_backward(line, 8), 4);
    assert_eq!(word_backward(line, 6), 4);
    assert_eq!(word_backward(line, 5), 4);
    assert_eq!(word_backward(line, 3), 0);
    assert_eq!(word_backward(b"ab  cd", 4), 1);
    let doc = Some(doc_of(&["hello world"]));
    let mut c = Cursor { column: 8, row: 0 };
    let mut es = editor(1, 20);
    let mut cs = state(0);
    let mut rs = clean();
    process_keypress(&doc, &mut c, &mut es, &mut cs, &mut rs, (80, 21), key(KeyCode::Left, CTRL));
    assert_eq!(c.column, 4);
}

#[test]
fn right_at_line_end_goes_to_next_line_start() {
    let doc = Some(doc_of(&["ab", "   cd"]));
    let mut c = Cursor { column: 1, row: 0 };
    let mut es = editor(2, 20);
    let mut cs = state(0);
    let mut rs = clean();
    process_keypress(&doc, &mut c, &mut es, &mut cs, &mut rs, (80, 21), key(KeyCode::Right, PLAIN));
    assert_eq!(c, Cursor { column: 3, row: 1 });
    assert_eq!(cs.last_padding, 3);
    assert_eq!(rs.last_cursor, Some(Cursor { column: 1, row: 0 }));
}

#[test]
fn right_at_end_of_last_line_does_nothing() {
    let doc = Some(doc_of(&["ab", "cd"]));
    let mut c = Cursor { column: 1, row: 1 };
    let mut es = editor(2, 20);
    let mut cs = state(0);
    let mut rs = clean();
    process_keypress(&doc, &mut c, &mut es, &mut cs, &mut rs, (80, 21), key(KeyCode::Right, PLAIN));
    assert_eq!(c, Cursor { column: 1, row: 1 });
    assert_eq!(rs, clean());
}

#[test]
fn right_onto_last_column_enters_sticky_mode() {
    let doc = Some(doc_of(&["abc", "a much longer line"]));
    let mut c = Cursor { column: 1, row: 0 };
    let mut es = editor(2, 20);
    let mut cs = state(0);
    let mut rs = clean();
    process_keypress(&doc, &mut c, &mut es, &mut cs, &mut rs, (80, 21), key(KeyCode::Right, PLAIN));
    assert_eq!(c.column, 2);
    assert!(cs.last_column);
    process_keypress(&doc, &mut c, &mut es, &mut cs, &mut rs, (80, 21), key(KeyCode::Down, PLAIN));
    assert_eq!(c, Cursor { column: 17, row: 1 });
}

#[test]
fn left_at_column_zero_goes_to_previous_line_end() {
    let doc = Some(doc_of(&["hello", "x"]));
    let mut c = Cursor { column: 0, row: 1 };
    let mut es = editor(2, 20);
    let mut cs = state(0);
    let mut rs = clean();
    process_keypress(&doc, &mut c, &mut es, &mut cs, &mut rs, (80, 21), key(KeyCode::Left, PLAIN));
    assert_eq!(c, Cursor { column: 4, row: 0 });
    assert!(!cs.last_column);
}

#[test]
fn left_at_document_start_does_nothing() {
    let doc = Some(doc_of(&["hello"]));
    let mut c = Cursor { column: 0, row: 0 };
    let mut es = editor(1, 20);
    let mut cs = CursorState { last_column: true, last_padding: 0, scroll_y: 0 };
    let mut rs = clean();
    process_keypress(&doc, &mut c, &mut es, &mut cs, &mut rs, (80, 21), key(KeyCode::Left, PLAIN));
    assert_eq!(c, Cursor { column: 0, row: 0 });
    assert!(!cs.last_column);
    assert_eq!(rs, clean());
}

#[test]
fn shift_down_pages_and_shift_up_pages_back() {
    let doc = Some(numbered(100));
    let mut c = Cursor { column: 0, row: 5 };
    let mut es = editor(100, 20);
    let mut cs = state(0);
    let mut rs = clean();
    process_keypress(&doc, &mut c, &mut es, &mut cs, &mut rs, (80, 21), key(KeyCode::Down, SHIFT));
    assert_eq!(cs.scroll_y, 20);
    process_keypress(&doc, &mut c, &mut es, &mut cs, &mut rs, (80, 21), key(KeyCode::Up, SHIFT));
    assert_eq!(cs.scroll_y, 0);
    assert_eq!(c.row, 5);
}

#[test]
fn mouse_wheel_scrolls_and_signals_the_top() {
    let doc = Some(numbered(100));
    let mut c = Cursor { column: 0, row: 5 };
    let mut es = editor(100, 20);
    let mut cs = state(0);
    let mut rs = clean();
    let down = Some(InputEvent::MouseScroll { direction: ScrollDirection::Down, modifiers: PLAIN });
    let up = Some(InputEvent::MouseScroll { direction: ScrollDirection::Up, modifiers: PLAIN });
    assert!(!process_keypress(&doc, &mut c, &mut es, &mut cs, &mut rs, (80, 21), down));
    assert_eq!(cs.scroll_y, 1);
    assert_eq!(c.row, 4);
    assert!(!process_keypress(&doc, &mut c, &mut es, &mut cs, &mut rs, (80, 21), up));
    assert_eq!(cs.scroll_y, 0);
    assert_eq!(c.row, 5);
    assert!(process_keypress(&doc, &mut c, &mut es, &mut cs, &mut rs, (80, 21), up));
    assert_eq!(cs.scroll_y, 0);
}

#[test]
fn quit_key_stops_the_viewer() {
    let doc = Some(numbered(3));
    let mut c = Cursor { column: 0, row: 0 };
    let mut es = editor(3, 20);
    let mut cs = state(0);
    let mut rs = clean();
    process_keypress(&doc, &mut c, &mut es, &mut cs, &mut rs, (80, 21), key(KeyCode::Char('x'), PLAIN));
    assert!(es.running);
    process_keypress(&doc, &mut c, &mut es, &mut cs, &mut rs, (80, 21), key(KeyCode::Char('q'), PLAIN));
    assert!(!es.running);
}

#[test]
fn terminal_size_sets_the_viewport() {
    let doc: Option<Document> = None;
    let mut c = Cursor { column: 0, row: 0 };
    let mut es = editor(0, 0);
    let mut cs = state(0);
    let mut rs = clean();
    process_keypress(&doc, &mut c, &mut es, &mut cs, &mut rs, (84, 25), None);
    assert_eq!(es.rows, 24);
    assert_eq!(es.columns, 80);
    process_keypress(&doc, &mut c, &mut es, &mut cs, &mut rs, (2, 0), None);
    assert_eq!(es.rows, 0);
    assert_eq!(es.columns, 0);
}

#[test]
fn degenerate_viewport_ignores_navigation() {
    let doc = Some(numbered(10));
    let mut c = Cursor { column: 0, row: 0 };
    let mut es = editor(10, 20);
    let mut cs = state(0);
    let mut rs = clean();
    process_keypress(&doc, &mut c, &mut es, &mut cs, &mut rs, (80, 1), key(KeyCode::Down, PLAIN));
    assert_eq!(es.rows, 0);
    assert_eq!(c, Cursor { column: 0, row: 0 });
    assert_eq!(rs, clean());
    let click = Some(InputEvent::MouseClick { row: 5, column: 9 });
    process_keypress(&doc, &mut c, &mut es, &mut cs, &mut rs, (80, 1), click);
    assert_eq!(c, Cursor { column: 0, row: 0 });
    process_keypress(&doc, &mut c, &mut es, &mut cs, &mut rs, (80, 1), key(KeyCode::Char('q'), PLAIN));
    assert!(!es.running);
}

#[test]
fn no_document_keeps_the_cursor_home() {
    let doc: Option<Document> = None;
    let mut c = Cursor { column: 0, row: 0 };
    let mut es = editor(0, 20);
    let mut cs = state(0);
    let mut rs = clean();
    process_keypress(&doc, &mut c, &mut es, &mut cs, &mut rs, (80, 21), key(KeyCode::Down, PLAIN));
    assert_eq!(c, Cursor { column: 0, row: 0 });
    let click = Some(InputEvent::MouseClick { row: 7, column: 30 });
    process_keypress(&doc, &mut c, &mut es, &mut cs, &mut rs, (80, 21), click);
    assert_eq!(c, Cursor { column: 0, row: 0 });
    process_keypress(&doc, &mut c, &mut es, &mut cs, &mut rs, (80, 21), key(KeyCode::Right, PLAIN));
    assert_eq!(c, Cursor { column: 0, row: 0 });
}

#[test]
fn empty_document_never_panics() {
    let doc = Some(doc_of(&[]));
    let mut c = Cursor { column: 0, row: 0 };
    let mut es = editor(0, 20);
    let mut cs = state(0);
    let mut rs = clean();
    let events = [
        key(KeyCode::Up, PLAIN),
        key(KeyCode::Down, PLAIN),
        key(KeyCode::Down, SHIFT),
        key(KeyCode::Up, SHIFT),
        key(KeyCode::Right, PLAIN),
        key(KeyCode::Right, CTRL),
        key(KeyCode::Left, PLAIN),
        key(KeyCode::Left, CTRL),
        Some(InputEvent::MouseScroll { direction: ScrollDirection::Down, modifiers: PLAIN }),
        Some(InputEvent::MouseScroll { direction: ScrollDirection::Up, modifiers: PLAIN }),
        Some(InputEvent::MouseClick { row: 9, column: 9 }),
    ];
    for ev in events {
        process_keypress(&doc, &mut c, &mut es, &mut cs, &mut rs, (80, 21), ev);
        assert_eq!(c, Cursor { column: 0, row: 0 });
        assert_eq!(cs.scroll_y, 0);
    }
}
