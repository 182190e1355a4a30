//! The navigation engine: how the cursor and the scroll offset react to
//! input events.

use vstd::prelude::*;

use crate::EditorState;
use crate::render::RenderState;
use crate::text::{
    max_col_of, padding, padding_of, word_backward, word_backward_of, word_forward, word_forward_of,
    Document,
};

verus! {

/// The modifier keys held during an input event.
#[derive(Debug, Clone, Copy, PartialEq, Eq, Structural)]
pub struct Modifiers {
    pub shift: bool,
    pub control: bool,
}

/// A key, as far as navigation tells keys apart.
#[derive(Debug, Clone, Copy, PartialEq, Eq, Structural)]
pub enum KeyCode {
    Char(char),
    Up,
    Down,
    Left,
    Right,
}

/// The direction of a mouse wheel turn.
#[derive(Debug, Clone, Copy, PartialEq, Eq, Structural)]
pub enum ScrollDirection {
    Up,
    Down,
}

/// An input event that the viewer reacts to. Terminal rows and columns are
/// counted from the top left corner of the terminal.
#[derive(Debug, Clone, Copy, PartialEq, Eq, Structural)]
pub enum InputEvent {
    Key { code: KeyCode, modifiers: Modifiers },
    MouseScroll { direction: ScrollDirection, modifiers: Modifiers },
    MouseClick { row: u16, column: u16 },
}

/// The key that stops the viewer.
pub const QUIT_KEY: char = 'q';

/// Terminal columns on the left kept for line numbers.
pub const GUTTER_WIDTH: u16 = 4;

/// Terminal rows at the bottom kept for the status bar.
pub const STATUS_ROWS: u16 = 1;

/// Navigation memory kept between events.
#[derive(Debug, Clone, Copy, PartialEq, Eq, Structural)]
pub struct CursorState {
    /// Not only whether the cursor is at the last column, but whether it
    /// should behave as if it were: vertical moves then snap to the end of
    /// the line.
    pub last_column: bool,
    /// The padding (leading whitespace count) of the line the cursor last
    /// rested on.
    pub last_padding: usize,
    /// The document line shown at the top of the viewport.
    pub scroll_y: usize,
}

/// The caret: a row relative to the top of the viewport and a byte column
/// into the current line.
#[derive(Debug, Clone, Copy, PartialEq, Eq, Structural)]
pub struct Cursor {
    pub column: usize,
    pub row: usize,
}

/// The smaller of two integers.
pub open spec fn min_nat(a: nat, b: nat) -> nat {
    if a <= b {
        a
    } else {
        b
    }
}

/// The document line the cursor is on.
pub open spec fn current_line(doc: Document, c: Cursor, cs: CursorState) -> Seq<u8> {
    doc.line(cs.scroll_y + c.row)
}

/// The column that a vertical move lands on: shifted by the change of
/// padding unless Control is held, snapped to the end of the line in sticky
/// mode, and always clamped to the line.
pub open spec fn vertical_column(column: nat, l: Seq<u8>, control: bool, cs: CursorState) -> nat {
    let shifted: int = if control {
        column as int
    } else {
        column + padding_of(l) - cs.last_padding
    };
    let wanted: nat = if shifted < 0 {
        0
    } else {
        shifted as nat
    };
    if cs.last_column {
        max_col_of(l)
    } else {
        min_nat(max_col_of(l), wanted)
    }
}

/// The state after `adjust_column_vertical` on line `l`.
pub open spec fn adjusted_vertical(c: Cursor, l: Seq<u8>, control: bool, cs: CursorState) -> (
    Cursor,
    CursorState,
) {
    (
        Cursor { column: vertical_column(c.column as nat, l, control, cs) as usize, row: c.row },
        CursorState { last_padding: padding_of(l) as usize, ..cs },
    )
}

/// The state after `adjust_column_start` on line `l`.
pub open spec fn adjusted_start(c: Cursor, l: Seq<u8>, cs: CursorState) -> (Cursor, CursorState) {
    (
        Cursor { column: min_nat(padding_of(l), max_col_of(l)) as usize, row: c.row },
        CursorState { last_padding: padding_of(l) as usize, ..cs },
    )
}

/// The state after `adjust_column_end` on line `l`.
pub open spec fn adjusted_end(c: Cursor, l: Seq<u8>, cs: CursorState) -> (Cursor, CursorState) {
    (
        Cursor { column: max_col_of(l) as usize, row: c.row },
        CursorState { last_padding: padding_of(l) as usize, last_column: false, ..cs },
    )
}

/// The state after `adjust_column_random` on line `l`.
pub open spec fn adjusted_random(c: Cursor, l: Seq<u8>, cs: CursorState) -> (Cursor, CursorState) {
    if max_col_of(l) <= c.column {
        (
            Cursor { column: max_col_of(l) as usize, row: c.row },
            CursorState { last_padding: padding_of(l) as usize, last_column: true, ..cs },
        )
    } else {
        (c, CursorState { last_padding: padding_of(l) as usize, ..cs })
    }
}

/// `a - b`, or 0 where that would be negative.
pub open spec fn sat_sub(a: nat, b: nat) -> nat {
    if a >= b {
        (a - b) as nat
    } else {
        0
    }
}

/// The state after `move_up`: up one row, or scroll up one line from the top
/// row; nothing at the top of the document.
pub open spec fn moved_up(c: Cursor, cs: CursorState, rs: RenderState) -> (
    Cursor,
    CursorState,
    RenderState,
) {
    if c.row == 0 {
        if cs.scroll_y > 0 {
            (
                c,
                CursorState { scroll_y: (cs.scroll_y - 1) as usize, ..cs },
                RenderState { modif_all: true, ..rs },
            )
        } else {
            (c, cs, rs)
        }
    } else {
        (Cursor { row: (c.row - 1) as usize, ..c }, cs, RenderState { last_cursor: Some(c), ..rs })
    }
}

/// The state after `move_down`: down one row while the next document line
/// exists, or scroll down one line from the bottom row while the viewport
/// does not pass the end of the document.
pub open spec fn moved_down(es: EditorState, c: Cursor, cs: CursorState, rs: RenderState) -> (
    Cursor,
    CursorState,
    RenderState,
) {
    if c.row == sat_sub(es.rows as nat, 1) {
        if cs.scroll_y < sat_sub(es.doc_lines as nat, es.rows as nat) {
            (
                c,
                CursorState { scroll_y: (cs.scroll_y + 1) as usize, ..cs },
                RenderState { modif_all: true, ..rs },
            )
        } else {
            (c, cs, rs)
        }
    } else if cs.scroll_y + c.row + 1 < es.doc_lines {
        (Cursor { row: (c.row + 1) as usize, ..c }, cs, RenderState { last_cursor: Some(c), ..rs })
    } else {
        (c, cs, rs)
    }
}

/// The state after `page_up`: scroll up a whole viewport if there is room,
/// else snap to the top of the document.
pub open spec fn paged_up(es: EditorState, c: Cursor, cs: CursorState, rs: RenderState) -> (
    Cursor,
    CursorState,
    RenderState,
) {
    if cs.scroll_y >= es.rows {
        (
            c,
            CursorState { scroll_y: (cs.scroll_y - es.rows) as usize, ..cs },
            RenderState { modif_all: true, ..rs },
        )
    } else {
        (
            Cursor { row: 0, ..c },
            CursorState { scroll_y: 0, ..cs },
            RenderState { last_cursor: Some(c), modif_all: rs.modif_all || cs.scroll_y > 0, ..rs },
        )
    }
}

/// The state after `page_down`: scroll down a whole viewport if the viewport
/// then still ends within the document, else snap the cursor to
/// `tail_row`.
pub open spec fn paged_down(es: EditorState, c: Cursor, cs: CursorState, rs: RenderState) -> (
    Cursor,
    CursorState,
    RenderState,
) {
    if cs.scroll_y + es.rows + es.rows <= es.doc_lines {
        (
            c,
            CursorState { scroll_y: (cs.scroll_y + es.rows) as usize, ..cs },
            RenderState { modif_all: true, ..rs },
        )
    } else {
        (Cursor { row: tail_row(es) as usize, ..c }, cs, RenderState { last_cursor: Some(c), ..rs })
    }
}

/// The state after `scroll_down`: the viewport moves down one line while it
/// does not pass the end of the document, and the cursor keeps its document
/// line unless it is on the top row.
pub open spec fn scrolled_down(es: EditorState, c: Cursor, cs: CursorState, rs: RenderState) -> (
    Cursor,
    CursorState,
    RenderState,
) {
    if cs.scroll_y < sat_sub(es.doc_lines as nat, es.rows as nat) {
        (
            Cursor { row: sat_sub(c.row as nat, 1) as usize, ..c },
            CursorState { scroll_y: (cs.scroll_y + 1) as usize, ..cs },
            RenderState { modif_all: true, ..rs },
        )
    } else {
        (c, cs, rs)
    }
}

/// The state after `scroll_up`: the viewport moves up one line unless it
/// shows the top of the document, and the cursor keeps its document line
/// unless it is on the bottom row.
pub open spec fn scrolled_up(es: EditorState, c: Cursor, cs: CursorState, rs: RenderState) -> (
    Cursor,
    CursorState,
    RenderState,
) {
    if cs.scroll_y > 0 {
        (
            Cursor { row: if c.row + 1 < es.rows { (c.row + 1) as usize } else { c.row }, ..c },
            CursorState { scroll_y: (cs.scroll_y - 1) as usize, ..cs },
            RenderState { modif_all: true, ..rs },
        )
    } else {
        (c, cs, rs)
    }
}

/// The state after a right move (Control+Right moves by words). At the end
/// of a line it goes to the start of the next line, if there is one. A move
/// that lands on the last column enters sticky end-of-line mode.
pub open spec fn moved_right(
    doc: Document,
    es: EditorState,
    control: bool,
    c: Cursor,
    cs: CursorState,
    rs: RenderState,
) -> (Cursor, CursorState, RenderState) {
    let l = current_line(doc, c, cs);
    let last = max_col_of(l);
    if c.column >= last {
        if cs.scroll_y + c.row + 1 < es.doc_lines {
            let (c1, cs1, rs1) = moved_down(es, c, cs, RenderState { last_cursor: Some(c), ..rs });
            let (c2, cs2) = adjusted_start(c1, current_line(doc, c1, cs1), cs1);
            (c2, cs2, rs1)
        } else {
            (c, cs, rs)
        }
    } else {
        let col: int = if control {
            word_forward_of(l, c.column as int)
        } else {
            c.column + 1
        };
        (
            Cursor { column: col as usize, ..c },
            CursorState { last_column: cs.last_column || col == last, ..cs },
            RenderState { last_cursor: Some(c), ..rs },
        )
    }
}

/// The state after a left move (Control+Left moves by words). It always
/// leaves sticky end-of-line mode. At column 0 it goes up a line, to the end
/// of that line unless the cursor was on the top row.
pub open spec fn moved_left(
    doc: Document,
    control: bool,
    c: Cursor,
    cs: CursorState,
    rs: RenderState,
) -> (Cursor, CursorState, RenderState) {
    let cs0 = CursorState { last_column: false, ..cs };
    if c.column == 0 {
        let (c1, cs1, rs1) = moved_up(c, cs0, rs);
        if c.row != 0 {
            let (c2, cs2) = adjusted_end(c1, current_line(doc, c1, cs1), cs1);
            (c2, cs2, rs1)
        } else {
            (c1, cs1, rs1)
        }
    } else {
        let l = current_line(doc, c, cs);
        let col: int = if control && c.column < l.len() {
            word_backward_of(l, c.column as int)
        } else {
            c.column - 1
        };
        (Cursor { column: col as usize, ..c }, cs0, RenderState { last_cursor: Some(c), ..rs })
    }
}

/// The row of the last line of the document's last, partial, page.
pub open spec fn tail_row(es: EditorState) -> nat {
    if es.rows == 0 {
        0
    } else {
        sat_sub((es.doc_lines % es.rows) as nat, 1)
    }
}

/// Where a click at terminal `(row, column)` puts the cursor, before the
/// column is fitted to the line.
pub open spec fn click_target(es: EditorState, row: u16, column: u16) -> Cursor {
    Cursor {
        column: min_nat(sat_sub(column as nat, GUTTER_WIDTH as nat), es.columns as nat) as usize,
        row: min_nat(row as nat, tail_row(es)) as usize,
    }
}

/// The state after a click at terminal `(row, column)`.
pub open spec fn clicked(
    doc: Option<Document>,
    es: EditorState,
    row: u16,
    column: u16,
    c: Cursor,
    cs: CursorState,
    rs: RenderState,
) -> (Cursor, CursorState, RenderState) {
    let t = click_target(es, row, column);
    let rs1 = RenderState { last_cursor: Some(c), ..rs };
    match doc {
        Some(d) => {
            let (c2, cs2) = adjusted_random(t, current_line(d, t, cs), cs);
            (c2, cs2, rs1)
        },
        None => (Cursor { column: 0, row: 0 }, cs, rs1),
    }
}

/// The column fitting that follows every vertical move; with no document
/// the cursor stays on the top row.
pub open spec fn settled(doc: Option<Document>, control: bool, c: Cursor, cs: CursorState) -> (
    Cursor,
    CursorState,
) {
    match doc {
        Some(d) => adjusted_vertical(c, current_line(d, c, cs), control, cs),
        None => (Cursor { row: 0, ..c }, cs),
    }
}

/// The viewport that a terminal of `size` (columns, rows) leaves.
pub open spec fn resized(es: EditorState, size: (u16, u16)) -> EditorState {
    EditorState {
        rows: sat_sub(size.1 as nat, STATUS_ROWS as nat) as usize,
        columns: sat_sub(size.0 as nat, GUTTER_WIDTH as nat) as usize,
        ..es
    }
}

/// A vertical move (`shift` pages), then the column fitting.
pub open spec fn vertical_step(
    doc: Option<Document>,
    es: EditorState,
    up: bool,
    m: Modifiers,
    wheel: bool,
    c: Cursor,
    cs: CursorState,
    rs: RenderState,
) -> (Cursor, CursorState, RenderState) {
    let (c1, cs1, rs1) = if up {
        if m.shift {
            paged_up(es, c, cs, rs)
        } else if wheel {
            scrolled_up(es, c, cs, rs)
        } else {
            moved_up(c, cs, rs)
        }
    } else {
        if m.shift {
            paged_down(es, c, cs, rs)
        } else if wheel {
            scrolled_down(es, c, cs, rs)
        } else {
            moved_down(es, c, cs, rs)
        }
    };
    let (c2, cs2) = settled(doc, m.control, c1, cs1);
    (c2, cs2, rs1)
}

/// The state after one event on a viewport of `es`, and whether the
/// top-of-document signal is due. The quit key stops the viewer; with no
/// usable row nothing else happens.
pub open spec fn stepped(
    doc: Option<Document>,
    es: EditorState,
    event: InputEvent,
    c: Cursor,
    cs: CursorState,
    rs: RenderState,
) -> (Cursor, EditorState, CursorState, RenderState, bool) {
    match event {
        InputEvent::Key { code: KeyCode::Char(ch), .. } => {
            (c, EditorState { running: es.running && ch != QUIT_KEY, ..es }, cs, rs, false)
        },
        _ => {
            if es.rows == 0 {
                (c, es, cs, rs, false)
            } else {
                match event {
                    InputEvent::Key { code: KeyCode::Up, modifiers } => {
                        let (c1, cs1, rs1) = vertical_step(doc, es, true, modifiers, false, c, cs, rs);
                        (c1, es, cs1, rs1, false)
                    },
                    InputEvent::Key { code: KeyCode::Down, modifiers } => {
                        let (c1, cs1, rs1) = vertical_step(doc, es, false, modifiers, false, c, cs, rs);
                        (c1, es, cs1, rs1, false)
                    },
                    InputEvent::Key { code: KeyCode::Right, modifiers } => {
                        match doc {
                            Some(d) => {
                                let (c1, cs1, rs1) = moved_right(d, es, modifiers.control, c, cs, rs);
                                (c1, es, cs1, rs1, false)
                            },
                            None => (c, es, cs, rs, false),
                        }
                    },
                    InputEvent::Key { code: KeyCode::Left, modifiers } => {
                        match doc {
                            Some(d) => {
                                let (c1, cs1, rs1) = moved_left(d, modifiers.control, c, cs, rs);
                                (c1, es, cs1, rs1, false)
                            },
                            None => (c, es, CursorState { last_column: false, ..cs }, rs, false),
                        }
                    },
                    InputEvent::MouseScroll { direction, modifiers } => {
                        let up = direction == ScrollDirection::Up;
                        let (c1, cs1, rs1) = vertical_step(doc, es, up, modifiers, true, c, cs, rs);
                        (c1, es, cs1, rs1, up && !modifiers.shift && cs.scroll_y == 0)
                    },
                    InputEvent::MouseClick { row, column } => {
                        let (c1, cs1, rs1) = clicked(doc, es, row, column, c, cs, rs);
                        (c1, es, cs1, rs1, false)
                    },
                    _ => (c, es, cs, rs, false),
                }
            }
        },
    }
}

/// The number of lines of an optional document.
pub open spec fn doc_len(doc: Option<Document>) -> nat {
    match doc {
        Some(d) => d.num_lines(),
        None => 0,
    }
}

/// The bytes of the line the cursor is on; none without a document.
pub open spec fn line_under(doc: Option<Document>, c: Cursor, cs: CursorState) -> Seq<u8> {
    match doc {
        Some(d) => current_line(d, c, cs),
        None => Seq::empty(),
    }
}

/// Whether the viewport of `es` is usable and shows the cursor on a
/// document line: the cursor row is inside the viewport, the viewport does
/// not start past the last full page, and the cursor's line exists (or the
/// document is empty and the cursor on the top row).
pub open spec fn view_valid(es: EditorState, c: Cursor, cs: CursorState) -> bool {
    &&& es.rows > 0
    &&& c.row < es.rows
    &&& cs.scroll_y <= sat_sub(es.doc_lines as nat, es.rows as nat)
    &&& (cs.scroll_y + c.row < es.doc_lines || (es.doc_lines == 0 && c.row == 0))
}

/// The navigation invariant: `view_valid`, the line count agrees with the
/// document, and the column is on the current line (column 0 on an empty
/// one).
pub open spec fn nav_valid(doc: Option<Document>, es: EditorState, c: Cursor, cs: CursorState) -> bool {
    &&& view_valid(es, c, cs)
    &&& es.doc_lines == doc_len(doc)
    &&& c.column <= max_col_of(line_under(doc, c, cs))
}

/// The last valid column of `line`.
fn max_col(line: &[u8]) -> (r: usize)
    ensures
        r == max_col_of(line@),
{
    if line.len() == 0 {
        0
    } else {
        line.len() - 1
    }
}

impl Cursor {
    /// Realigns the column after a vertical move.
    ///
    /// Without Control the column follows the indentation: it moves by as
    /// much as the padding of the new line differs from the last padding.
    /// In sticky end-of-line mode it snaps to the end of the new line. It is
    /// always clamped to the line, and the new line's padding is remembered.
    pub fn adjust_column_vertical(
        &mut self,
        doc: &Document,
        modifiers: Modifiers,
        cursor_state: &mut CursorState,
    )
        ensures
            (*final(self), *final(cursor_state)) == adjusted_vertical(
                *old(self),
                current_line(*doc, *old(self), *old(cursor_state)),
                modifiers.control,
                *old(cursor_state),
            ),
    {
        let line = doc.line_at(cursor_state.scroll_y, self.row);
        let curr_padding = padding(line);
        let last = max_col(line);
        let col = self.column;
        let lp = cursor_state.last_padding;
        // The wanted column, already clamped to `last`.
        let wanted: usize = if modifiers.control {
            if col <= last {
                col
            } else {
                last
            }
        } else if curr_padding >= lp {
            let grow = curr_padding - lp;
            if col <= last && grow <= last - col {
                col + grow
            } else {
                last
            }
        } else {
            let shrink = lp - curr_padding;
            let moved = if col >= shrink {
                col - shrink
            } else {
                0
            };
            if moved <= last {
                moved
            } else {
                last
            }
        };
        cursor_state.last_padding = curr_padding;
        if cursor_state.last_column {
            self.column = last;
        } else {
            self.column = wanted;
        }
    }

    /// Puts the column on the first non-blank byte of the current line
    /// (clamped to the line) and remembers the line's padding.
    pub fn adjust_column_start(&mut self, doc: &Document, cursor_state: &mut CursorState)
        ensures
            (*final(self), *final(cursor_state)) == adjusted_start(
                *old(self),
                current_line(*doc, *old(self), *old(cursor_state)),
                *old(cursor_state),
            ),
    {
        let line = doc.line_at(cursor_state.scroll_y, self.row);
        let curr_padding = padding(line);
        let last = max_col(line);
        cursor_state.last_padding = curr_padding;
        self.column = if curr_padding <= last {
            curr_padding
        } else {
            last
        };
    }

    /// Puts the column on the last byte of the current line, leaves sticky
    /// end-of-line mode (so that a following left move goes left) and
    /// remembers the line's padding.
    pub fn adjust_column_end(&mut self, doc: &Document, cursor_state: &mut CursorState)
        ensures
            (*final(self), *final(cursor_state)) == adjusted_end(
                *old(self),
                current_line(*doc, *old(self), *old(cursor_state)),
                *old(cursor_state),
            ),
    {
        let line = doc.line_at(cursor_state.scroll_y, self.row);
        cursor_state.last_padding = padding(line);
        cursor_state.last_column = false;
        self.column = max_col(line);
    }

    /// After a direct placement (a mouse click): clamps the column to the
    /// last byte of the line, entering sticky end-of-line mode when the
    /// column reaches it, and remembers the line's padding.
    pub fn adjust_column_random(&mut self, doc: &Document, cursor_state: &mut CursorState)
        ensures
            (*final(self), *final(cursor_state)) == adjusted_random(
                *old(self),
                current_line(*doc, *old(self), *old(cursor_state)),
                *old(cursor_state),
            ),
    {
        let line = doc.line_at(cursor_state.scroll_y, self.row);
        cursor_state.last_padding = padding(line);
        let last = max_col(line);
        if last <= self.column {
            cursor_state.last_column = true;
            self.column = last;
        }
    }

    /// Moves up one row, scrolling up one line from the top row; does
    /// nothing at the top of the document.
    pub fn move_up(&mut self, cursor_state: &mut CursorState, render_state: &mut RenderState)
        ensures
            (*final(self), *final(cursor_state), *final(render_state)) == moved_up(
                *old(self),
                *old(cursor_state),
                *old(render_state),
            ),
    {
        if self.row == 0 {
            if cursor_state.scroll_y > 0 {
                render_state.modif_all = true;
                cursor_state.scroll_y -= 1;
            }
        } else {
            render_state.last_cursor = Some(*self);
            self.row -= 1;
        }
    }

    /// Moves down one row while the next document line exists, scrolling
    /// down one line from the bottom row while the viewport does not pass
    /// the end of the document.
    pub fn move_down(
        &mut self,
        editor_state: &EditorState,
        cursor_state: &mut CursorState,
        render_state: &mut RenderState,
    )
        ensures
            (*final(self), *final(cursor_state), *final(render_state)) == moved_down(
                *editor_state,
                *old(self),
                *old(cursor_state),
                *old(render_state),
            ),
    {
        let rows = editor_state.rows;
        let doc_lines = editor_state.doc_lines;
        if self.row == rows.saturating_sub(1) {
            if cursor_state.scroll_y < doc_lines.saturating_sub(rows) {
                render_state.modif_all = true;
                cursor_state.scroll_y += 1;
            }
        } else if self.row < doc_lines.saturating_sub(cursor_state.scroll_y).saturating_sub(1) {
            render_state.last_cursor = Some(*self);
            self.row += 1;
        }
    }

    /// Scrolls up by a whole viewport, leaving the cursor on its row; where
    /// that would pass the top of the document, goes to its first line.
    pub fn page_up(
        &mut self,
        editor_state: &EditorState,
        cursor_state: &mut CursorState,
        render_state: &mut RenderState,
    )
        ensures
            (*final(self), *final(cursor_state), *final(render_state)) == paged_up(
                *editor_state,
                *old(self),
                *old(cursor_state),
                *old(render_state),
            ),
    {
        let rows = editor_state.rows;
        if cursor_state.scroll_y >= rows {
            render_state.modif_all = true;
            cursor_state.scroll_y -= rows;
        } else {
            render_state.last_cursor = Some(*self);
            if cursor_state.scroll_y > 0 {
                render_state.modif_all = true;
            }
            cursor_state.scroll_y = 0;
            self.row = 0;
        }
    }

    /// Scrolls down by a whole viewport, leaving the cursor on its row, if
    /// the viewport then still ends within the document; else snaps the
    /// cursor to the row of the document's last partial page.
    pub fn page_down(
        &mut self,
        editor_state: &EditorState,
        cursor_state: &mut CursorState,
        render_state: &mut RenderState,
    )
        ensures
            (*final(self), *final(cursor_state), *final(render_state)) == paged_down(
                *editor_state,
                *old(self),
                *old(cursor_state),
                *old(render_state),
            ),
    {
        let rows = editor_state.rows;
        let doc_lines = editor_state.doc_lines;
        let max_scroll = doc_lines.saturating_sub(rows);
        if cursor_state.scroll_y <= max_scroll && rows <= max_scroll - cursor_state.scroll_y {
            render_state.modif_all = true;
            cursor_state.scroll_y += rows;
        } else {
            render_state.last_cursor = Some(*self);
            self.row = if rows == 0 {
                0
            } else {
                (doc_lines % rows).saturating_sub(1)
            };
        }
    }

    /// Mouse wheel down: moves the viewport down one line while it does not
    /// pass the end of the document; the cursor keeps its document line
    /// unless it is on the top row.
    pub fn scroll_down(
        &mut self,
        editor_state: &EditorState,
        cursor_state: &mut CursorState,
        render_state: &mut RenderState,
    )
        ensures
            (*final(self), *final(cursor_state), *final(render_state)) == scrolled_down(
                *editor_state,
                *old(self),
                *old(cursor_state),
                *old(render_state),
            ),
    {
        if cursor_state.scroll_y < editor_state.doc_lines.saturating_sub(editor_state.rows) {
            render_state.modif_all = true;
            cursor_state.scroll_y += 1;
            self.row = self.row.saturating_sub(1);
        }
    }

    /// Mouse wheel up: moves the viewport up one line unless it shows the
    /// top of the document; the cursor keeps its document line unless it is
    /// on the bottom row. Returns whether the top of the document stopped
    /// the scroll, for the caller to signal.
    pub fn scroll_up(
        &mut self,
        editor_state: &EditorState,
        cursor_state: &mut CursorState,
        render_state: &mut RenderState,
    ) -> (at_top: bool)
        ensures
            at_top == (old(cursor_state).scroll_y == 0),
            (*final(self), *final(cursor_state), *final(render_state)) == scrolled_up(
                *editor_state,
                *old(self),
                *old(cursor_state),
                *old(render_state),
            ),
    {
        if cursor_state.scroll_y > 0 {
            render_state.modif_all = true;
            cursor_state.scroll_y -= 1;
            if self.row < editor_state.rows.saturating_sub(1) {
                self.row += 1;
            }
            false
        } else {
            true
        }
    }

    /// Fits the column after a vertical move; with no document the cursor
    /// stays on the top row.
    fn settle(&mut self, doc: &Option<Document>, modifiers: Modifiers, cursor_state: &mut CursorState)
        ensures
            (*final(self), *final(cursor_state)) == settled(
                *doc,
                modifiers.control,
                *old(self),
                *old(cursor_state),
            ),
    {
        match doc {
            Some(d) => self.adjust_column_vertical(d, modifiers, cursor_state),
            None => self.row = 0,
        }
    }

    /// A right move on `doc`; see `moved_right`.
    fn move_right(
        &mut self,
        doc: &Document,
        editor_state: &EditorState,
        control: bool,
        cursor_state: &mut CursorState,
        render_state: &mut RenderState,
    )
        ensures
            (*final(self), *final(cursor_state), *final(render_state)) == moved_right(
                *doc,
                *editor_state,
                control,
                *old(self),
                *old(cursor_state),
                *old(render_state),
            ),
    {
        let line = doc.line_at(cursor_state.scroll_y, self.row);
        let last = max_col(line);
        if self.column >= last {
            let next = cursor_state.scroll_y.checked_add(self.row);
            if let Some(here) = next {
                if here < editor_state.doc_lines.saturating_sub(1) {
                    render_state.last_cursor = Some(*self);
                    self.move_down(editor_state, cursor_state, render_state);
                    self.adjust_column_start(doc, cursor_state);
                }
            }
        } else {
            render_state.last_cursor = Some(*self);
            let col = if control {
                word_forward(line, self.column)
            } else {
                self.column + 1
            };
            self.column = col;
            if col == last {
                cursor_state.last_column = true;
            }
        }
    }

    /// A left move on `doc`; see `moved_left`.
    fn move_left(
        &mut self,
        doc: &Document,
        control: bool,
        cursor_state: &mut CursorState,
        render_state: &mut RenderState,
    )
        ensures
            (*final(self), *final(cursor_state), *final(render_state)) == moved_left(
                *doc,
                control,
                *old(self),
                *old(cursor_state),
                *old(render_state),
            ),
    {
        cursor_state.last_column = false;
        if self.column == 0 {
            let was_top = self.row == 0;
            self.move_up(cursor_state, render_state);
            if !was_top {
                self.adjust_column_end(doc, cursor_state);
            }
        } else {
            let line = doc.line_at(cursor_state.scroll_y, self.row);
            render_state.last_cursor = Some(*self);
            self.column = if control && self.column < line.len() {
                word_backward(line, self.column)
            } else {
                self.column - 1
            };
        }
    }

    /// Places the cursor where a click at terminal `(row, column)` points.
    fn click(
        &mut self,
        doc: &Option<Document>,
        editor_state: &EditorState,
        row: u16,
        column: u16,
        cursor_state: &mut CursorState,
        render_state: &mut RenderState,
    )
        ensures
            (*final(self), *final(cursor_state), *final(render_state)) == clicked(
                *doc,
                *editor_state,
                row,
                column,
                *old(self),
                *old(cursor_state),
                *old(render_state),
            ),
    {
        render_state.last_cursor = Some(*self);
        let tail = if editor_state.rows == 0 {
            0
        } else {
            (editor_state.doc_lines % editor_state.rows).saturating_sub(1)
        };
        let r = row as usize;
        let c = column.saturating_sub(GUTTER_WIDTH) as usize;
        self.row = if r <= tail {
            r
        } else {
            tail
        };
        self.column = if c <= editor_state.columns {
            c
        } else {
            editor_state.columns
        };
        match doc {
            Some(d) => self.adjust_column_random(d, cursor_state),
            None => {
                self.row = 0;
                self.column = 0;
            },
        }
    }
}

/// Handles one input event, after taking the viewport from the terminal
/// size (columns, rows). Returns whether the caller should signal that the
/// top of the document stopped a scroll.
pub fn process_keypress(
    doc: &Option<Document>,
    cursor: &mut Cursor,
    editor_state: &mut EditorState,
    cursor_state: &mut CursorState,
    render_state: &mut RenderState,
    terminal_size: (u16, u16),
    event: Option<InputEvent>,
) -> (notify: bool)
    ensures
        ({
            let es = resized(*old(editor_state), terminal_size);
            match event {
                Some(ev) => (
                    *final(cursor),
                    *final(editor_state),
                    *final(cursor_state),
                    *final(render_state),
                    notify,
                ) == stepped(*doc, es, ev, *old(cursor), *old(cursor_state), *old(render_state)),
                None => {
                    &&& *final(editor_state) == es
                    &&& *final(cursor) == *old(cursor)
                    &&& *final(cursor_state) == *old(cursor_state)
                    &&& *final(render_state) == *old(render_state)
                    &&& !notify
                },
            }
        }),
{
    let (term_columns, term_rows) = terminal_size;
    editor_state.rows = term_rows.saturating_sub(STATUS_ROWS) as usize;
    editor_state.columns = term_columns.saturating_sub(GUTTER_WIDTH) as usize;
    let ev = match event {
        Some(ev) => ev,
        None => return false,
    };
    if let InputEvent::Key { code: KeyCode::Char(ch), .. } = ev {
        if ch == QUIT_KEY {
            editor_state.running = false;
        }
        return false;
    }
    if editor_state.rows == 0 {
        return false;
    }
    match ev {
        InputEvent::Key { code: KeyCode::Up, modifiers } => {
            if modifiers.shift {
                cursor.page_up(editor_state, cursor_state, render_state);
            } else {
                cursor.move_up(cursor_state, render_state);
            }
            cursor.settle(doc, modifiers, cursor_state);
            false
        },
        InputEvent::Key { code: KeyCode::Down, modifiers } => {
            if modifiers.shift {
                cursor.page_down(editor_state, cursor_state, render_state);
            } else {
                cursor.move_down(editor_state, cursor_state, render_state);
            }
            cursor.settle(doc, modifiers, cursor_state);
            false
        },
        InputEvent::Key { code: KeyCode::Right, modifiers } => {
            if let Some(d) = doc {
                cursor.move_right(d, editor_state, modifiers.control, cursor_state, render_state);
            }
            false
        },
        InputEvent::Key { code: KeyCode::Left, modifiers } => {
            match doc {
                Some(d) => cursor.move_left(d, modifiers.control, cursor_state, render_state),
                None => cursor_state.last_column = false,
            }
            false
        },
        InputEvent::MouseScroll { direction: ScrollDirection::Up, modifiers } => {
            let mut at_top = false;
            if modifiers.shift {
                cursor.page_up(editor_state, cursor_state, render_state);
            } else {
                at_top = cursor.scroll_up(editor_state, cursor_state, render_state);
            }
            cursor.settle(doc, modifiers, cursor_state);
            at_top
        },
        InputEvent::MouseScroll { direction: ScrollDirection::Down, modifiers } => {
            if modifiers.shift {
                cursor.page_down(editor_state, cursor_state, render_state);
            } else {
                cursor.scroll_down(editor_state, cursor_state, render_state);
            }
            cursor.settle(doc, modifiers, cursor_state);
            false
        },
        InputEvent::MouseClick { row, column } => {
            cursor.click(doc, editor_state, row, column, cursor_state, render_state);
            false
        },
        InputEvent::Key { code: KeyCode::Char(_), .. } => false,
    }
}


} // verus!
