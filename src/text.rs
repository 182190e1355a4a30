//! The document: an immutable sequence of lines, viewed by the navigation
//! engine as byte sequences.

use vstd::prelude::*;
use vstd::utf8::{decode_utf8, encode_utf8, valid_utf8};

verus! {

/// A document: the lines of a file, with their terminators (`\n` or `\r\n`)
/// stripped, and the path it was loaded from.
#[derive(Debug, Clone, PartialEq, Eq)]
pub struct Document {
    /// Where the document came from; not interpreted by the viewer.
    pub path: String,
    /// One entry per physical line, in order.
    pub inner_lines: Vec<String>,
}

impl Document {
    /// The bytes of document line `i`; empty past either end of the
    /// document.
    pub open spec fn line(&self, i: int) -> Seq<u8> {
        if 0 <= i < self.inner_lines@.len() {
            encode_utf8(self.inner_lines@[i]@)
        } else {
            Seq::empty()
        }
    }

    /// The number of lines.
    pub open spec fn num_lines(&self) -> nat {
        self.inner_lines@.len()
    }

    /// Builds the document that a file at `path` holding `bytes` reads as.
    /// A line that is valid UTF-8 keeps its bytes exactly.
    pub fn new(path: String, bytes: &[u8]) -> (doc: Document)
        ensures
            doc.path@ == path@,
            doc.inner_lines@.len() == split_lines(bytes@).len(),
            forall|i: int|
                0 <= i < doc.inner_lines@.len() ==> #[trigger] doc.inner_lines@[i]@ == lossy_text(
                    split_lines(bytes@)[i],
                ),
            forall|i: int|
                0 <= i < doc.inner_lines@.len() && valid_utf8(split_lines(bytes@)[i])
                    ==> #[trigger] doc.line(i) == split_lines(bytes@)[i],
    {
        broadcast use vstd::utf8::decode_utf8_encode_utf8;

        let mut inner_lines: Vec<String> = Vec::new();
        let ghost mut done: Seq<Seq<u8>> = Seq::empty();
        let mut start: usize = 0;
        let mut i: usize = 0;
        while i < bytes.len()
            invariant
                start <= i <= bytes@.len(),
                done + lines_scan(bytes@, start as int, i as int) == split_lines(bytes@),
                inner_lines@.len() == done.len(),
                forall|j: int|
                    0 <= j < done.len() ==> #[trigger] inner_lines@[j]@ == lossy_text(done[j]),
                forall|j: int|
                    0 <= j < done.len() && valid_utf8(done[j]) ==> #[trigger] inner_lines@[j]@
                        == decode_utf8(done[j]),
            decreases bytes@.len() - i,
        {
            if bytes[i] == 0x0Au8 {
                let end: usize = if i > start && bytes[i - 1] == 0x0Du8 {
                    i - 1
                } else {
                    i
                };
                let piece = &bytes[start..end];
                proof {
                    assert(piece@ == strip_cr(bytes@.subrange(start as int, i as int)));
                    assert(done + lines_scan(bytes@, start as int, i as int) == (done + seq![
                        piece@,
                    ]) + lines_scan(bytes@, i + 1, i + 1));
                    done = done.push(piece@);
                }
                inner_lines.push(text_of(piece));
                start = i + 1;
            }
            i += 1;
        }
        if start < bytes.len() {
            let piece = &bytes[start..bytes.len()];
            proof {
                done = done.push(piece@);
            }
            inner_lines.push(text_of(piece));
        }
        proof {
            assert(done == split_lines(bytes@));
        }
        let doc = Document { path, inner_lines };
        assert forall|i: int|
            0 <= i < doc.inner_lines@.len() && valid_utf8(split_lines(bytes@)[i]) implies #[trigger] doc.line(i)
            == split_lines(bytes@)[i] by {
            assert(doc.inner_lines@[i]@ == decode_utf8(done[i]));
        }
        doc
    }

    /// The bytes of line `scroll_y + row`, or no bytes where no such line
    /// exists.
    pub fn line_at(&self, scroll_y: usize, row: usize) -> (r: &[u8])
        ensures
            r@ == self.line(scroll_y + row),
    {
        let none = "";
        proof {
            reveal_strlit("");
            assert(encode_utf8(none@) =~= Seq::<u8>::empty());
        }
        let n = self.inner_lines.len();
        match scroll_y.checked_add(row) {
            Some(i) if i < n => self.inner_lines[i].as_str().as_bytes(),
            _ => none.as_bytes(),
        }
    }
}

/// A line's bytes without the carriage return that ended it, if any.
pub open spec fn strip_cr(s: Seq<u8>) -> Seq<u8> {
    if s.len() > 0 && s.last() == 0x0Du8 {
        s.drop_last()
    } else {
        s
    }
}

/// The lines of `b[start..]` when the current line began at `start` and the
/// scan has reached `i`: a line feed ends a line (and drops a carriage return
/// just before it); what follows the last line feed is a line if it is not
/// empty.
pub open spec fn lines_scan(b: Seq<u8>, start: int, i: int) -> Seq<Seq<u8>>
    decreases b.len() - i,
{
    if i >= b.len() {
        if start < b.len() {
            seq![b.subrange(start, b.len() as int)]
        } else {
            seq![]
        }
    } else if b[i] == 0x0Au8 {
        seq![strip_cr(b.subrange(start, i))] + lines_scan(b, i + 1, i + 1)
    } else {
        lines_scan(b, start, i + 1)
    }
}

/// The lines of a file's bytes.
pub open spec fn split_lines(b: Seq<u8>) -> Seq<Seq<u8>> {
    lines_scan(b, 0, 0)
}

/// The text that the bytes `b` read as, invalid sequences replaced.
pub uninterp spec fn lossy_text(b: Seq<u8>) -> Seq<char>;

/// Relies on `String::from_utf8_lossy`: the text is a function of the bytes,
/// and valid UTF-8 is decoded as it stands.
#[verifier::external_body]
fn text_of(b: &[u8]) -> (r: String)
    ensures
        r@ == lossy_text(b@),
        valid_utf8(b@) ==> r@ == decode_utf8(b@),
{
    String::from_utf8_lossy(b).into_owned()
}

/// Whether `b` is an ASCII whitespace byte: space, tab, line feed, form feed
/// or carriage return.
pub open spec fn is_ws(b: u8) -> bool {
    b == 0x20u8 || b == 0x09u8 || b == 0x0Au8 || b == 0x0Cu8 || b == 0x0Du8
}

/// Exec counterpart of `is_ws`.
pub fn is_ascii_ws(b: u8) -> (r: bool)
    ensures
        r == is_ws(b),
{
    b == 0x20u8 || b == 0x09u8 || b == 0x0Au8 || b == 0x0Cu8 || b == 0x0Du8
}

/// Number of whitespace bytes of `l` from index `i` on, up to the first
/// byte that is not whitespace.
pub open spec fn ws_run(l: Seq<u8>, i: int) -> nat
    decreases l.len() - i,
{
    if 0 <= i < l.len() && is_ws(l[i]) {
        1 + ws_run(l, i + 1)
    } else {
        0
    }
}

/// The padding of a line: the count of its leading whitespace bytes.
pub open spec fn padding_of(l: Seq<u8>) -> nat {
    ws_run(l, 0)
}

/// The last valid column of a line: its last index, or 0 for an empty line.
pub open spec fn max_col_of(l: Seq<u8>) -> nat {
    if l.len() == 0 {
        0
    } else {
        (l.len() - 1) as nat
    }
}

proof fn lemma_ws_run_bound(l: Seq<u8>, i: int)
    requires
        0 <= i <= l.len(),
    ensures
        i + ws_run(l, i) <= l.len(),
    decreases l.len() - i,
{
    if i < l.len() && is_ws(l[i]) {
        lemma_ws_run_bound(l, i + 1);
    }
}

/// Counts the leading whitespace bytes of `line`.
pub fn padding(line: &[u8]) -> (r: usize)
    ensures
        r == padding_of(line@),
        r <= line@.len(),
{
    let mut p: usize = 0;
    while p < line.len() && is_ascii_ws(line[p])
        invariant
            p <= line@.len(),
            ws_run(line@, 0) == p + ws_run(line@, p as int),
        decreases line@.len() - p,
    {
        p += 1;
    }
    proof {
        lemma_ws_run_bound(line@, 0);
    }
    p
}

/// Whether `b` is a space byte, the separator of word motion.
pub open spec fn is_space(b: u8) -> bool {
    b == 0x20u8
}

/// Where a run that starts at `i` ends going forward: the first index from
/// `i` on, but at most `bound`, whose byte is not of the run's kind (spaces
/// when `space`, other bytes when not).
pub open spec fn run_end(l: Seq<u8>, i: int, bound: int, space: bool) -> int
    decreases bound - i,
{
    if i < bound && is_space(l[i]) == space {
        run_end(l, i + 1, bound, space)
    } else {
        i
    }
}

/// Where a run that contains `i` ends going backward: the last index from
/// `i` down, but at least 0, reached while the bytes are of the run's kind.
pub open spec fn run_start(l: Seq<u8>, i: int, space: bool) -> int
    decreases i,
{
    if i > 0 && is_space(l[i]) == space {
        run_start(l, i - 1, space)
    } else {
        i
    }
}

/// The column that a word-forward move from column `c` lands on: past the
/// spaces under the cursor; or past the rest of the word under the cursor
/// and the spaces after it. It never passes the last byte.
pub open spec fn word_forward_of(l: Seq<u8>, c: int) -> int {
    let last = max_col_of(l) as int;
    if is_space(l[c]) {
        let e = run_end(l, c, l.len() as int, true);
        if e <= last {
            e
        } else {
            last
        }
    } else {
        run_end(l, run_end(l, c, last, false), last, true)
    }
}

/// The column that a word-backward move from column `c` lands on: back
/// through the spaces under the cursor; or back through the word under the
/// cursor and the spaces before it. It stops at column 0.
pub open spec fn word_backward_of(l: Seq<u8>, c: int) -> int {
    if is_space(l[c]) {
        run_start(l, c, true)
    } else {
        run_start(l, run_start(l, c, false), true)
    }
}

proof fn lemma_run_end_bounds(l: Seq<u8>, i: int, bound: int, space: bool)
    requires
        i <= bound,
    ensures
        i <= run_end(l, i, bound, space) <= bound,
    decreases bound - i,
{
    if i < bound && is_space(l[i]) == space {
        lemma_run_end_bounds(l, i + 1, bound, space);
    }
}

proof fn lemma_run_start_bounds(l: Seq<u8>, i: int, space: bool)
    requires
        0 <= i,
    ensures
        0 <= run_start(l, i, space) <= i,
    decreases i,
{
    if i > 0 && is_space(l[i]) == space {
        lemma_run_start_bounds(l, i - 1, space);
    }
}

/// A word-forward move stays on the line and never goes left.
pub proof fn lemma_word_forward_in_line(l: Seq<u8>, c: int)
    requires
        0 <= c < l.len(),
    ensures
        c <= word_forward_of(l, c) <= max_col_of(l),
{
    let last = max_col_of(l) as int;
    lemma_run_end_bounds(l, c, l.len() as int, true);
    lemma_run_end_bounds(l, c, last, false);
    lemma_run_end_bounds(l, run_end(l, c, last, false), last, true);
}

/// A word-backward move stays on the line and never goes right.
pub proof fn lemma_word_backward_in_line(l: Seq<u8>, c: int)
    requires
        0 <= c < l.len(),
    ensures
        0 <= word_backward_of(l, c) <= c,
{
    lemma_run_start_bounds(l, c, true);
    lemma_run_start_bounds(l, c, false);
    lemma_run_start_bounds(l, run_start(l, c, false), true);
}

/// Advances from `i` while the bytes are of the run's kind, up to `bound`.
fn skip_forward(line: &[u8], i: usize, bound: usize, space: bool) -> (r: usize)
    requires
        i <= bound <= line@.len(),
    ensures
        r == run_end(line@, i as int, bound as int, space),
        i <= r <= bound,
{
    let mut j = i;
    while j < bound && (line[j] == 0x20u8) == space
        invariant
            i <= j <= bound <= line@.len(),
            run_end(line@, j as int, bound as int, space) == run_end(
                line@,
                i as int,
                bound as int,
                space,
            ),
        decreases bound - j,
    {
        j += 1;
    }
    j
}

/// Retreats from `i` while the bytes are of the run's kind, down to 0.
fn skip_backward(line: &[u8], i: usize, space: bool) -> (r: usize)
    requires
        i < line@.len(),
    ensures
        r == run_start(line@, i as int, space),
        r <= i,
{
    let mut j = i;
    while j > 0 && (line[j] == 0x20u8) == space
        invariant
            j <= i < line@.len(),
            run_start(line@, j as int, space) == run_start(line@, i as int, space),
        decreases j,
    {
        j -= 1;
    }
    j
}

/// Word-forward motion on `line` from `column` (Control+Right).
pub fn word_forward(line: &[u8], column: usize) -> (r: usize)
    requires
        column < line@.len(),
    ensures
        r == word_forward_of(line@, column as int),
        r <= max_col_of(line@),
{
    let last = line.len() - 1;
    if line[column] == 0x20u8 {
        let e = skip_forward(line, column, line.len(), true);
        if e <= last {
            e
        } else {
            last
        }
    } else {
        let word_end = skip_forward(line, column, last, false);
        skip_forward(line, word_end, last, true)
    }
}

/// Word-backward motion on `line` from `column` (Control+Left).
pub fn word_backward(line: &[u8], column: usize) -> (r: usize)
    requires
        column < line@.len(),
    ensures
        r == word_backward_of(line@, column as int),
        r <= column,
{
    if line[column] == 0x20u8 {
        skip_backward(line, column, true)
    } else {
        let first = skip_backward(line, column, false);
        skip_backward(line, first, true)
    }
}

} // verus!
