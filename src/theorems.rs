//! What holds of the navigation engine across operations and events.

use vstd::prelude::*;

use crate::EditorState;
use crate::input::{
    adjusted_end, adjusted_vertical, clicked, current_line, doc_len, line_under, min_nat, moved_down,
    moved_left, moved_right, moved_up, nav_valid, paged_down, paged_up, sat_sub, scrolled_down,
    scrolled_up, settled, stepped, tail_row, vertical_step, view_valid, Cursor, CursorState,
    InputEvent, KeyCode, ScrollDirection,
};
use crate::render::RenderState;
use crate::text::{lemma_word_backward_in_line, lemma_word_forward_in_line, max_col_of, Document};

verus! {

proof fn lemma_tail_row(es: EditorState, scroll_y: nat)
    requires
        es.rows > 0,
        scroll_y <= sat_sub(es.doc_lines as nat, es.rows as nat),
    ensures
        tail_row(es) < es.rows,
        scroll_y + tail_row(es) < es.doc_lines || (es.doc_lines == 0 && tail_row(es) == 0),
{
    vstd::arithmetic::div_mod::lemma_mod_bound(es.doc_lines as int, es.rows as int);
    if es.doc_lines < es.rows {
        vstd::arithmetic::div_mod::lemma_small_mod(es.doc_lines as nat, es.rows as nat);
    }
}

/// Every movement operation keeps the cursor row inside the viewport and on
/// a document line, and the viewport within the document.
pub proof fn lemma_moves_keep_view(es: EditorState, c: Cursor, cs: CursorState, rs: RenderState)
    requires
        view_valid(es, c, cs),
    ensures
        view_valid(es, moved_up(c, cs, rs).0, moved_up(c, cs, rs).1),
        view_valid(es, moved_down(es, c, cs, rs).0, moved_down(es, c, cs, rs).1),
        view_valid(es, paged_up(es, c, cs, rs).0, paged_up(es, c, cs, rs).1),
        view_valid(es, paged_down(es, c, cs, rs).0, paged_down(es, c, cs, rs).1),
        view_valid(es, scrolled_up(es, c, cs, rs).0, scrolled_up(es, c, cs, rs).1),
        view_valid(es, scrolled_down(es, c, cs, rs).0, scrolled_down(es, c, cs, rs).1),
{
    lemma_tail_row(es, cs.scroll_y as nat);
}

proof fn lemma_settled_valid(doc: Option<Document>, es: EditorState, control: bool, c: Cursor, cs: CursorState)
    requires
        view_valid(es, c, cs),
        es.doc_lines == doc_len(doc),
        doc is None ==> c.column == 0,
    ensures
        nav_valid(doc, es, settled(doc, control, c, cs).0, settled(doc, control, c, cs).1),
{
    match doc {
        Some(d) => {
            let l = current_line(d, c, cs);
            let (c2, cs2) = adjusted_vertical(c, l, control, cs);
            assert(current_line(d, c2, cs2) == l);
        },
        None => {},
    }
}

proof fn lemma_vertical_step_valid(
    doc: Option<Document>,
    es: EditorState,
    up: bool,
    m: crate::input::Modifiers,
    wheel: bool,
    c: Cursor,
    cs: CursorState,
    rs: RenderState,
)
    requires
        nav_valid(doc, es, c, cs),
    ensures
        ({
            let (c1, cs1, rs1) = vertical_step(doc, es, up, m, wheel, c, cs, rs);
            nav_valid(doc, es, c1, cs1)
        }),
{
    lemma_moves_keep_view(es, c, cs, rs);
    let (c1, cs1, rs1) = if up {
        if m.shift {
            paged_up(es, c, cs, rs)
        } else if wheel {
            scrolled_up(es, c, cs, rs)
        } else {
            moved_up(c, cs, rs)
        }
    } else {
        if m.shift {
            paged_down(es, c, cs, rs)
        } else if wheel {
            scrolled_down(es, c, cs, rs)
        } else {
            moved_down(es, c, cs, rs)
        }
    };
    assert(view_valid(es, c1, cs1));
    lemma_settled_valid(doc, es, m.control, c1, cs1);
}

proof fn lemma_right_valid(d: Document, es: EditorState, control: bool, c: Cursor, cs: CursorState, rs: RenderState)
    requires
        nav_valid(Some(d), es, c, cs),
    ensures
        ({
            let (c1, cs1, rs1) = moved_right(d, es, control, c, cs, rs);
            nav_valid(Some(d), es, c1, cs1)
        }),
{
    let l = current_line(d, c, cs);
    if c.column < max_col_of(l) {
        if control {
            lemma_word_forward_in_line(l, c.column as int);
        }
    } else {
        lemma_moves_keep_view(es, c, cs, RenderState { last_cursor: Some(c), ..rs });
    }
}

proof fn lemma_left_valid(d: Document, es: EditorState, control: bool, c: Cursor, cs: CursorState, rs: RenderState)
    requires
        nav_valid(Some(d), es, c, cs),
    ensures
        ({
            let (c1, cs1, rs1) = moved_left(d, control, c, cs, rs);
            nav_valid(Some(d), es, c1, cs1)
        }),
{
    let l = current_line(d, c, cs);
    if c.column > 0 {
        if control && c.column < l.len() {
            lemma_word_backward_in_line(l, c.column as int);
        }
    } else {
        lemma_moves_keep_view(es, c, CursorState { last_column: false, ..cs }, rs);
    }
}

/// A click always puts the cursor inside the viewport, on a document line,
/// and on a column of that line, wherever on the terminal it lands.
pub proof fn lemma_click_lands_in_document(
    doc: Option<Document>,
    es: EditorState,
    row: u16,
    column: u16,
    c: Cursor,
    cs: CursorState,
    rs: RenderState,
)
    requires
        nav_valid(doc, es, c, cs),
    ensures
        ({
            let (c1, cs1, rs1) = clicked(doc, es, row, column, c, cs, rs);
            &&& nav_valid(doc, es, c1, cs1)
            &&& c1.row <= row
            &&& c1.row < es.rows
            &&& cs1.scroll_y + c1.row < es.doc_lines || es.doc_lines == 0
        }),
{
    lemma_tail_row(es, cs.scroll_y as nat);
}

/// Every event keeps the navigation invariant: after it the cursor row is
/// inside the viewport, on a document line, and the column on that line
/// (`0 <= column <= max(0, len(line) - 1)`). `process_keypress` takes each
/// event through `stepped` on the viewport of the terminal size it is
/// given, so this holds after each call whose state was valid for that
/// viewport.
pub proof fn lemma_step_keeps_nav_valid(
    doc: Option<Document>,
    es: EditorState,
    event: InputEvent,
    c: Cursor,
    cs: CursorState,
    rs: RenderState,
)
    requires
        nav_valid(doc, es, c, cs),
    ensures
        ({
            let (c1, es1, cs1, rs1, notify) = stepped(doc, es, event, c, cs, rs);
            &&& nav_valid(doc, es1, c1, cs1)
            &&& c1.row < es1.rows
            &&& c1.column <= max_col_of(line_under(doc, c1, cs1))
        }),
{
    match event {
        InputEvent::Key { code: KeyCode::Char(_), .. } => {},
        InputEvent::Key { code: KeyCode::Up, modifiers } => {
            lemma_vertical_step_valid(doc, es, true, modifiers, false, c, cs, rs);
        },
        InputEvent::Key { code: KeyCode::Down, modifiers } => {
            lemma_vertical_step_valid(doc, es, false, modifiers, false, c, cs, rs);
        },
        InputEvent::Key { code: KeyCode::Right, modifiers } => {
            if let Some(d) = doc {
                lemma_right_valid(d, es, modifiers.control, c, cs, rs);
            }
        },
        InputEvent::Key { code: KeyCode::Left, modifiers } => {
            if let Some(d) = doc {
                lemma_left_valid(d, es, modifiers.control, c, cs, rs);
            }
        },
        InputEvent::MouseScroll { direction, modifiers } => {
            let up = direction == ScrollDirection::Up;
            lemma_vertical_step_valid(doc, es, up, modifiers, true, c, cs, rs);
        },
        InputEvent::MouseClick { row, column } => {
            lemma_click_lands_in_document(doc, es, row, column, c, cs, rs);
        },
    }
}

/// Moving up from the top row of a viewport at the top of the document
/// changes nothing, so doing it again changes nothing either.
pub proof fn lemma_move_up_at_top_is_noop(c: Cursor, cs: CursorState, rs: RenderState)
    requires
        c.row == 0,
        cs.scroll_y == 0,
    ensures
        moved_up(c, cs, rs) == (c, cs, rs),
        ({
            let (c1, cs1, rs1) = moved_up(c, cs, rs);
            moved_up(c1, cs1, rs1) == (c1, cs1, rs1)
        }),
{
}

/// Moving down from the last line of the document changes nothing.
pub proof fn lemma_move_down_at_last_line_is_noop(
    es: EditorState,
    c: Cursor,
    cs: CursorState,
    rs: RenderState,
)
    requires
        view_valid(es, c, cs),
        cs.scroll_y + c.row + 1 == es.doc_lines,
    ensures
        moved_down(es, c, cs, rs) == (c, cs, rs),
{
}

/// Where the document fills the viewport, no scroll operation leaves the
/// viewport running past the end of the document: `scroll_y + rows <=
/// doc_lines` after each of them.
pub proof fn lemma_scrolls_stay_in_document(es: EditorState, c: Cursor, cs: CursorState, rs: RenderState)
    requires
        view_valid(es, c, cs),
        es.doc_lines >= es.rows,
    ensures
        moved_up(c, cs, rs).1.scroll_y + es.rows <= es.doc_lines,
        moved_down(es, c, cs, rs).1.scroll_y + es.rows <= es.doc_lines,
        paged_up(es, c, cs, rs).1.scroll_y + es.rows <= es.doc_lines,
        paged_down(es, c, cs, rs).1.scroll_y + es.rows <= es.doc_lines,
        scrolled_up(es, c, cs, rs).1.scroll_y + es.rows <= es.doc_lines,
        scrolled_down(es, c, cs, rs).1.scroll_y + es.rows <= es.doc_lines,
{
    lemma_moves_keep_view(es, c, cs, rs);
}

/// A page down followed by a page up comes back to within one viewport of
/// where it started, exactly where a whole page fitted below. At the
/// document's edges the page moves snap: where the page down could not
/// scroll, the page up scrolls a page up from the start, or to the top of
/// the document when less than a page lies above.
pub proof fn lemma_page_down_then_up(es: EditorState, c: Cursor, cs: CursorState, rs: RenderState)
    ensures
        ({
            let (c1, cs1, rs1) = paged_down(es, c, cs, rs);
            let (c2, cs2, rs2) = paged_up(es, c1, cs1, rs1);
            &&& cs.scroll_y - es.rows <= cs2.scroll_y <= cs.scroll_y
            &&& cs.scroll_y + es.rows + es.rows <= es.doc_lines ==> cs2.scroll_y == cs.scroll_y
            &&& cs.scroll_y + es.rows + es.rows > es.doc_lines ==> cs2.scroll_y == sat_sub(
                cs.scroll_y as nat,
                es.rows as nat,
            )
        }),
{
}

/// With Control held, a vertical move keeps the column (clamped to the new
/// line), whatever padding the cursor remembered; without sticky
/// end-of-line mode it is `min(column, last column)`.
pub proof fn lemma_control_ignores_padding(c: Cursor, l: Seq<u8>, cs: CursorState, last_padding: usize)
    ensures
        adjusted_vertical(c, l, true, cs).0 == adjusted_vertical(
            c,
            l,
            true,
            CursorState { last_padding, ..cs },
        ).0,
        !cs.last_column ==> adjusted_vertical(c, l, true, cs).0.column == min_nat(
            c.column as nat,
            max_col_of(l),
        ),
        adjusted_vertical(c, l, true, cs).0.row == c.row,
{
}

/// `adjust_column_end` leaves sticky end-of-line mode, so a plain left move
/// right after it goes one column left of the last column and stays out of
/// that mode. (The line is one held in memory: its length is a `usize`.)
pub proof fn lemma_end_then_left(d: Document, c: Cursor, cs: CursorState, rs: RenderState)
    requires
        max_col_of(current_line(d, c, cs)) > 0,
        current_line(d, c, cs).len() <= usize::MAX,
    ensures
        ({
            let l = current_line(d, c, cs);
            let (c1, cs1) = adjusted_end(c, l, cs);
            let (c2, cs2, rs2) = moved_left(d, false, c1, cs1, rs);
            &&& !cs1.last_column
            &&& c2.column == max_col_of(l) - 1
            &&& c2.column < max_col_of(l)
            &&& c2.row == c.row
            &&& !cs2.last_column
        }),
{
}

} // verus!
