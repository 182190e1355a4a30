//! The render planner: which draw operations bring the screen up to date
//! after a state change, redrawing no more than the dirty regions.

use vstd::prelude::*;
use vstd::string::StringExecFns;
use vstd::utf8::encode_utf8;

use crate::EditorState;
use crate::input::{sat_sub, Cursor, CursorState, GUTTER_WIDTH};
use crate::text::Document;

verus! {

/// The dirty regions of the screen, produced by the navigation engine and
/// consumed (then cleared) by the renderer.
#[derive(Debug, Clone, Copy, PartialEq, Eq, Structural)]
pub struct RenderState {
    /// A single body row that must be repainted.
    pub modif_row: Option<usize>,
    /// Whether the whole viewport must be repainted.
    pub modif_all: bool,
    /// The previous caret position, when the caret moved.
    pub last_cursor: Option<Cursor>,
    /// Whether the status bar must be repainted.
    pub modif_status: bool,
}

/// A draw operation for the terminal; `T` is the type of the text it
/// carries. Coordinates are terminal cells, columns first.
#[derive(Debug, Clone, PartialEq, Eq)]
pub enum DrawOp<T> {
    /// Remember the terminal cursor position.
    SavePosition,
    /// Go back to the remembered terminal cursor position.
    RestorePosition,
    MoveTo { column: u16, row: u16 },
    MoveToRow(u16),
    /// Clear the line the terminal cursor is on.
    ClearLine,
    HideCaret,
    ShowCaret,
    /// The number of a document line, in the gutter.
    LineNumber(usize),
    /// The text of a document line.
    Text(T),
    /// The marker of a row past the end of the document.
    Filler,
    /// The title shown when no document is loaded.
    Banner(T),
    /// The content of the status bar.
    StatusBar(T),
}

impl<T: View> View for DrawOp<T> {
    type V = DrawOp<<T as View>::V>;

    open spec fn view(&self) -> DrawOp<<T as View>::V> {
        match self {
            DrawOp::SavePosition => DrawOp::SavePosition,
            DrawOp::RestorePosition => DrawOp::RestorePosition,
            DrawOp::MoveTo { column, row } => DrawOp::MoveTo { column: *column, row: *row },
            DrawOp::MoveToRow(r) => DrawOp::MoveToRow(*r),
            DrawOp::ClearLine => DrawOp::ClearLine,
            DrawOp::HideCaret => DrawOp::HideCaret,
            DrawOp::ShowCaret => DrawOp::ShowCaret,
            DrawOp::LineNumber(n) => DrawOp::LineNumber(*n),
            DrawOp::Text(t) => DrawOp::Text(t@),
            DrawOp::Filler => DrawOp::Filler,
            DrawOp::Banner(t) => DrawOp::Banner(t@),
            DrawOp::StatusBar(t) => DrawOp::StatusBar(t@),
        }
    }
}

/// The draw operations of a plan, with their text as character sequences.
pub open spec fn ops_view(ops: Seq<DrawOp<String>>) -> Seq<DrawOp<Seq<char>>> {
    ops.map_values(|o: DrawOp<String>| o@)
}

/// A terminal coordinate: `x`, or the largest coordinate where `x` is
/// larger.
pub open spec fn cell(x: nat) -> u16 {
    if x <= u16::MAX {
        x as u16
    } else {
        u16::MAX
    }
}

/// `n` spaces.
pub open spec fn spaces(n: nat) -> Seq<char> {
    Seq::new(n, |i: int| ' ')
}

/// The character of a decimal digit.
pub open spec fn digit_char(d: nat) -> char {
    seq!['0', '1', '2', '3', '4', '5', '6', '7', '8', '9'][d as int]
}

/// `n` written in decimal.
pub open spec fn decimal(n: nat) -> Seq<char>
    decreases n,
{
    if n < 10 {
        seq![digit_char(n)]
    } else {
        decimal(n / 10).push(digit_char(n % 10))
    }
}

/// `s` right-aligned in a field of `width` characters.
pub open spec fn right_aligned(s: Seq<char>, width: nat) -> Seq<char> {
    spaces(sat_sub(width, s.len())) + s
}

/// How far through the document line `line` is, in whole percent.
pub open spec fn percent_of(line: nat, lines: nat) -> nat {
    if lines == 0 {
        0
    } else {
        line * 100 / lines
    }
}

/// Width of the percentage field of the status bar.
pub const PERCENT_WIDTH: usize = 8;

/// The status bar when no document is loaded.
pub const BLANK_STATUS: &'static str = "[blank]";

/// The title shown when no document is loaded.
pub const BANNER: &'static str = "Pepe editor -- version 0.0.1";

/// The cursor position part of the status bar: `column,row`, then the
/// percentage right-aligned, then `%`.
pub open spec fn position_text(c: Cursor, percent: nat) -> Seq<char> {
    decimal(c.column as nat) + seq![','] + decimal(c.row as nat) + right_aligned(
        decimal(percent),
        PERCENT_WIDTH as nat,
    ) + seq!['%']
}

/// The status bar for a viewport `columns` wide: the path, and, where there
/// is room for at least one space between them, the position flush right.
/// With no document: `[blank]` padded to the width.
pub open spec fn status_text(doc: Option<Document>, c: Cursor, columns: nat, scroll_y: nat) -> Seq<
    char,
> {
    match doc {
        Some(d) => {
            let pos = position_text(c, percent_of(scroll_y + c.row as nat, d.num_lines()));
            let gap = sat_sub(sat_sub(columns, encode_utf8(d.path@).len()), pos.len());
            if gap != 0 {
                d.path@ + spaces(gap) + pos
            } else {
                d.path@
            }
        },
        None => BLANK_STATUS@ + spaces(sat_sub(columns, BLANK_STATUS@.len())),
    }
}

/// Relies on `String::push`: appends one character.
#[verifier::external_body]
fn push_char(s: &mut String, ch: char)
    ensures
        final(s)@ == old(s)@.push(ch),
{
    s.push(ch);
}

/// Appends `n` spaces.
fn push_spaces(s: &mut String, n: usize)
    ensures
        final(s)@ == old(s)@ + spaces(n as nat),
{
    let mut i: usize = 0;
    while i < n
        invariant
            i <= n,
            s@ == old(s)@ + spaces(i as nat),
        decreases n - i,
    {
        push_char(s, ' ');
        i += 1;
        assert(s@ =~= old(s)@ + spaces(i as nat));
    }
}

/// The character of the decimal digit `d`.
fn digit(d: u128) -> (ch: char)
    requires
        d < 10,
    ensures
        ch == digit_char(d as nat),
{
    match d {
        0 => '0',
        1 => '1',
        2 => '2',
        3 => '3',
        4 => '4',
        5 => '5',
        6 => '6',
        7 => '7',
        8 => '8',
        _ => '9',
    }
}

/// Appends `n` in decimal.
fn push_decimal(s: &mut String, n: u128)
    ensures
        final(s)@ == old(s)@ + decimal(n as nat),
    decreases n,
{
    if n >= 10 {
        push_decimal(s, n / 10);
    }
    push_char(s, digit(n % 10));
    assert(s@ =~= old(s)@ + decimal(n as nat));
}

/// The content of the status bar.
fn render_status_bar(document: &Option<Document>, cursor: &Cursor, columns: usize, scroll_y: usize) -> (r:
    String)
    ensures
        r@ == status_text(*document, *cursor, columns as nat, scroll_y as nat),
{
    match document {
        Some(doc) => {
            let mut status = doc.path.clone();
            let n = doc.inner_lines.len();
            let line = scroll_y as u128 + cursor.row as u128;
            let percent: u128 = if n == 0 {
                0
            } else {
                line * 100 / (n as u128)
            };
            let mut pos = String::new();
            push_decimal(&mut pos, cursor.column as u128);
            push_char(&mut pos, ',');
            push_decimal(&mut pos, cursor.row as u128);
            let mut digits = String::new();
            push_decimal(&mut digits, percent);
            push_spaces(&mut pos, PERCENT_WIDTH.saturating_sub(digits.as_str().unicode_len()));
            pos.append(digits.as_str());
            push_char(&mut pos, '%');
            assert(pos@ =~= position_text(*cursor, percent as nat));
            let gap = columns.saturating_sub(status.as_str().as_bytes().len()).saturating_sub(
                pos.as_str().unicode_len(),
            );
            if gap != 0 {
                push_spaces(&mut status, gap);
                status.append(pos.as_str());
                assert(status@ =~= doc.path@ + spaces(gap as nat) + pos@);
            }
            status
        },
        None => {
            let mut status = BLANK_STATUS.to_owned();
            push_spaces(&mut status, columns.saturating_sub(BLANK_STATUS.unicode_len()));
            status
        },
    }
}

/// The state the renderer leaves: nothing dirty.
pub open spec fn cleared() -> RenderState {
    RenderState { modif_row: None, modif_all: false, last_cursor: None, modif_status: false }
}

/// The terminal cell of the caret.
pub open spec fn caret_move(c: Cursor) -> DrawOp<Seq<char>> {
    DrawOp::MoveTo { column: cell((c.column + GUTTER_WIDTH) as nat), row: cell(c.row as nat) }
}

/// Repaint of the status bar, on the row below the viewport.
pub open spec fn status_ops(doc: Option<Document>, c: Cursor, es: EditorState, cs: CursorState) -> Seq<
    DrawOp<Seq<char>>,
> {
    seq![
        DrawOp::SavePosition,
        DrawOp::MoveTo { column: 0, row: cell(es.rows as nat) },
        DrawOp::StatusBar(status_text(doc, c, es.columns as nat, cs.scroll_y as nat)),
        DrawOp::RestorePosition,
    ]
}

/// What row `r` shows: document line `idx` with its number, or the filler
/// past the end of the document.
pub open spec fn line_ops(doc: Option<Document>, idx: nat, r: nat) -> Seq<DrawOp<Seq<char>>> {
    match doc {
        Some(d) => if idx < d.num_lines() {
            seq![
                DrawOp::MoveTo { column: 0, row: cell(r) },
                DrawOp::LineNumber(idx as usize),
                DrawOp::Text(d.inner_lines@[idx as int]@),
            ]
        } else {
            seq![DrawOp::MoveTo { column: 0, row: cell(r) }, DrawOp::Filler]
        },
        None => seq![DrawOp::MoveTo { column: 0, row: cell(r) }, DrawOp::Filler],
    }
}

/// Full repaint of the first `n` rows of a document viewport.
pub open spec fn doc_rows_ops(doc: Option<Document>, scroll_y: nat, n: nat) -> Seq<DrawOp<Seq<char>>>
    decreases n,
{
    if n == 0 {
        seq![]
    } else {
        let r = (n - 1) as nat;
        doc_rows_ops(doc, scroll_y, r) + seq![DrawOp::MoveToRow(cell(r)), DrawOp::ClearLine]
            + line_ops(doc, scroll_y + r, r)
    }
}

/// The column where the banner starts, centred in the viewport.
pub open spec fn banner_column(es: EditorState) -> nat {
    sat_sub((es.columns / 2) as nat, BANNER@.len() / 2)
}

/// Full repaint of the first `n` rows of the screen shown with no document:
/// fillers, with the banner a third of the way down.
pub open spec fn intro_rows_ops(es: EditorState, n: nat) -> Seq<DrawOp<Seq<char>>>
    decreases n,
{
    if n == 0 {
        seq![]
    } else {
        let r = (n - 1) as nat;
        let base = intro_rows_ops(es, r) + seq![
            DrawOp::MoveToRow(cell(r)),
            DrawOp::ClearLine,
            DrawOp::MoveTo { column: 0, row: cell(r) },
            DrawOp::Filler,
        ];
        if r == es.rows / 3 {
            base + seq![
                DrawOp::MoveTo { column: cell(banner_column(es)), row: cell(r) },
                DrawOp::Banner(BANNER@),
            ]
        } else {
            base
        }
    }
}

/// Repaint of the viewport body: every row, one row, or none.
pub open spec fn body_ops(
    doc: Option<Document>,
    c: Cursor,
    es: EditorState,
    cs: CursorState,
    rs: RenderState,
) -> Seq<DrawOp<Seq<char>>> {
    if rs.modif_all {
        match doc {
            Some(d) => seq![caret_move(c), DrawOp::SavePosition, DrawOp::HideCaret] + doc_rows_ops(
                doc,
                cs.scroll_y as nat,
                es.rows as nat,
            ) + seq![DrawOp::RestorePosition, DrawOp::ShowCaret],
            None => intro_rows_ops(es, sat_sub(es.rows as nat, 1)),
        }
    } else {
        match rs.modif_row {
            Some(r) => seq![DrawOp::SavePosition] + line_ops(doc, (cs.scroll_y + r) as nat, r as nat)
                + seq![DrawOp::RestorePosition],
            None => seq![],
        }
    }
}

/// The draw operations of one frame: the status bar if it is dirty, then
/// the body, then, when only the caret moved, the caret.
pub open spec fn frame_ops(
    doc: Option<Document>,
    c: Cursor,
    es: EditorState,
    cs: CursorState,
    rs: RenderState,
) -> Seq<DrawOp<Seq<char>>> {
    let status = if rs.modif_status {
        status_ops(doc, c, es, cs)
    } else {
        seq![]
    };
    let caret = if rs.last_cursor is Some && !rs.modif_all {
        seq![DrawOp::HideCaret, caret_move(c), DrawOp::ShowCaret]
    } else {
        seq![]
    };
    status + body_ops(doc, c, es, cs, rs) + caret
}

/// Appends `op` to the plan.
fn emit(ops: &mut Vec<DrawOp<String>>, op: DrawOp<String>)
    ensures
        ops_view(final(ops)@) == ops_view(old(ops)@).push(op@),
{
    ops.push(op);
    assert(ops_view(ops@) =~= ops_view(old(ops)@).push(op@));
}

/// The terminal coordinate of `x`.
fn to_cell(x: usize) -> (r: u16)
    ensures
        r == cell(x as nat),
{
    if x <= 0xFFFFusize {
        x as u16
    } else {
        u16::MAX
    }
}

/// Moves the terminal cursor onto the caret.
fn emit_caret_move(ops: &mut Vec<DrawOp<String>>, cursor: &Cursor)
    ensures
        ops_view(final(ops)@) == ops_view(old(ops)@).push(caret_move(*cursor)),
{
    let column = if cursor.column <= 0xFFFFusize {
        to_cell(cursor.column + GUTTER_WIDTH as usize)
    } else {
        u16::MAX
    };
    emit(ops, DrawOp::MoveTo { column, row: to_cell(cursor.row) });
}

/// Draws row `r` as `line_ops` says, for a viewport that starts at
/// `scroll_y`.
fn emit_line(ops: &mut Vec<DrawOp<String>>, document: &Option<Document>, scroll_y: usize, r: usize)
    ensures
        ops_view(final(ops)@) == ops_view(old(ops)@) + line_ops(
            *document,
            (scroll_y + r) as nat,
            r as nat,
        ),
{
    let row = to_cell(r);
    emit(ops, DrawOp::MoveTo { column: 0, row });
    match document {
        Some(d) => {
            let n = d.inner_lines.len();
            match scroll_y.checked_add(r) {
                Some(idx) if idx < n => {
                    emit(ops, DrawOp::LineNumber(idx));
                    emit(ops, DrawOp::Text(d.inner_lines[idx].clone()));
                },
                _ => emit(ops, DrawOp::Filler),
            }
        },
        None => emit(ops, DrawOp::Filler),
    }
    assert(ops_view(ops@) =~= ops_view(old(ops)@) + line_ops(
        *document,
        (scroll_y + r) as nat,
        r as nat,
    ));
}

/// Plans the frame that brings the screen up to date with the dirty regions
/// of `render_state`, then clears them.
pub fn refresh_screen(
    document: &Option<Document>,
    cursor: &Cursor,
    editor_state: &EditorState,
    cursor_state: &CursorState,
    render_state: &mut RenderState,
) -> (ops: Vec<DrawOp<String>>)
    ensures
        ops_view(ops@) == frame_ops(
            *document,
            *cursor,
            *editor_state,
            *cursor_state,
            *old(render_state),
        ),
        *final(render_state) == cleared(),
{
    let rows = editor_state.rows;
    let scroll_y = cursor_state.scroll_y;
    let mut ops: Vec<DrawOp<String>> = Vec::new();
    if render_state.modif_status {
        emit(&mut ops, DrawOp::SavePosition);
        emit(&mut ops, DrawOp::MoveTo { column: 0, row: to_cell(rows) });
        emit(
            &mut ops,
            DrawOp::StatusBar(
                render_status_bar(document, cursor, editor_state.columns, scroll_y),
            ),
        );
        emit(&mut ops, DrawOp::RestorePosition);
    }
    let ghost status = ops_view(ops@);
    if render_state.modif_all {
        if document.is_some() {
            emit_caret_move(&mut ops, cursor);
            emit(&mut ops, DrawOp::SavePosition);
            emit(&mut ops, DrawOp::HideCaret);
            let ghost head = ops_view(ops@);
            let mut r: usize = 0;
            while r < rows
                invariant
                    r <= rows,
                    ops_view(ops@) == head + doc_rows_ops(*document, scroll_y as nat, r as nat),
                decreases rows - r,
            {
                emit(&mut ops, DrawOp::MoveToRow(to_cell(r)));
                emit(&mut ops, DrawOp::ClearLine);
                emit_line(&mut ops, document, scroll_y, r);
                r += 1;
            }
            emit(&mut ops, DrawOp::RestorePosition);
            emit(&mut ops, DrawOp::ShowCaret);
        } else {
            let n = rows.saturating_sub(1);
            let third = rows / 3;
            let banner_col = to_cell((editor_state.columns / 2).saturating_sub(BANNER.unicode_len() / 2));
            let mut r: usize = 0;
            while r < n
                invariant
                    r <= n,
                    ops_view(ops@) == status + intro_rows_ops(*editor_state, r as nat),
                    third == editor_state.rows / 3,
                    banner_col == cell(banner_column(*editor_state)),
                decreases n - r,
            {
                let row = to_cell(r);
                emit(&mut ops, DrawOp::MoveToRow(row));
                emit(&mut ops, DrawOp::ClearLine);
                emit(&mut ops, DrawOp::MoveTo { column: 0, row });
                emit(&mut ops, DrawOp::Filler);
                if r == third {
                    emit(&mut ops, DrawOp::MoveTo { column: banner_col, row });
                    emit(&mut ops, DrawOp::Banner(BANNER.to_owned()));
                }
                assert(ops_view(ops@) =~= status + intro_rows_ops(*editor_state, (r + 1) as nat));
                r += 1;
            }
        }
    } else if let Some(r) = render_state.modif_row {
        emit(&mut ops, DrawOp::SavePosition);
        emit_line(&mut ops, document, scroll_y, r);
        emit(&mut ops, DrawOp::RestorePosition);
    }
    if render_state.last_cursor.is_some() && !render_state.modif_all {
        emit(&mut ops, DrawOp::HideCaret);
        emit_caret_move(&mut ops, cursor);
        emit(&mut ops, DrawOp::ShowCaret);
    }
    *render_state = RenderState {
        modif_row: None,
        modif_all: false,
        last_cursor: None,
        modif_status: false,
    };
    ops
}

} // verus!
