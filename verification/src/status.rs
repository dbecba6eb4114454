//! The status line: what it says and how it is fitted to the terminal.

use crate::numeral::{format_grouped, signed_grouped_numeral};
use crate::text::{append, append_str, bytes_of};
use vstd::prelude::*;

verus! {

/// How a flag is written.
pub open spec fn flag_text(flag: bool) -> Seq<u8> {
    if flag {
        bytes_of("true")
    } else {
        bytes_of("false")
    }
}

/// The status line before it is fitted to a width: a carriage return, the
/// frame count with its digits grouped, the cursor position as the caller
/// wrote it, the drag flag and the caller's account of the transform.
pub open spec fn status_text(
    frames: i32,
    cursor_x: Seq<u8>,
    cursor_y: Seq<u8>,
    dragging: bool,
    state: Seq<u8>,
) -> Seq<u8> {
    bytes_of("\rframe: ") + signed_grouped_numeral(frames as int) + bytes_of(", mouse: (")
        + cursor_x + bytes_of(", ") + cursor_y + bytes_of("), dragging? ") + flag_text(dragging)
        + bytes_of(", ") + state
}

/// How many bytes of a text of `len` bytes are kept in a line of `width`
/// columns.
pub open spec fn kept_len(len: nat, width: nat) -> nat {
    if len > width {
        width
    } else {
        len
    }
}

/// `n` spaces.
pub open spec fn blanks(n: nat) -> Seq<u8> {
    Seq::new(n, |i: int| 32u8)
}

/// `raw` cut or padded with spaces to exactly `width` bytes.
pub open spec fn fitted(raw: Seq<u8>, width: nat) -> Seq<u8> {
    let kept = kept_len(raw.len(), width);
    raw.take(kept as int) + blanks((width - kept) as nat)
}

/// A fitted line is exactly as wide as asked. It starts with the first
/// `min(width, len)` bytes of the text, and whatever follows them is spaces.
pub proof fn fitted_fills_the_width(raw: Seq<u8>, width: nat)
    ensures
        fitted(raw, width).len() == width,
        kept_len(raw.len(), width) <= width,
        kept_len(raw.len(), width) <= raw.len(),
        kept_len(raw.len(), width) == width || kept_len(raw.len(), width) == raw.len(),
        fitted(raw, width).take(kept_len(raw.len(), width) as int) == raw.take(
            kept_len(raw.len(), width) as int,
        ),
        forall|i: int|
            kept_len(raw.len(), width) <= i < width ==> #[trigger] fitted(raw, width)[i] == 32u8,
{
    let kept = kept_len(raw.len(), width);
    assert(fitted(raw, width).take(kept as int) =~= raw.take(kept as int));
}

/// Writes the status line, not yet fitted to a width.
pub fn render_status(
    frames: i32,
    cursor_x: &[u8],
    cursor_y: &[u8],
    dragging: bool,
    state: &[u8],
) -> (raw: Vec<u8>)
    ensures
        raw@ == status_text(frames, cursor_x@, cursor_y@, dragging, state@),
{
    let mut raw: Vec<u8> = Vec::new();
    append_str(&mut raw, "\rframe: ");
    let count = format_grouped(frames);
    append(&mut raw, count.as_slice());
    append_str(&mut raw, ", mouse: (");
    append(&mut raw, cursor_x);
    append_str(&mut raw, ", ");
    append(&mut raw, cursor_y);
    append_str(&mut raw, "), dragging? ");
    if dragging {
        append_str(&mut raw, "true");
    } else {
        append_str(&mut raw, "false");
    }
    append_str(&mut raw, ", ");
    append(&mut raw, state);
    assert(raw@ =~= status_text(frames, cursor_x@, cursor_y@, dragging, state@));
    raw
}

/// Cuts `raw` to `width` bytes if it is longer and pads it with spaces to
/// `width` bytes if it is shorter.
pub fn fit_to_width(raw: &[u8], width: usize) -> (line: Vec<u8>)
    ensures
        line@ == fitted(raw@, width as nat),
        line@.len() == width,
{
    let kept: usize = if raw.len() > width {
        width
    } else {
        raw.len()
    };
    let mut line: Vec<u8> = Vec::new();
    let mut i: usize = 0;
    while i < kept
        invariant
            i <= kept <= raw@.len(),
            line@ == raw@.take(i as int),
        decreases kept - i,
    {
        line.push(raw[i]);
        assert(raw@.take(i + 1) =~= raw@.take(i as int).push(raw@[i as int]));
        i = i + 1;
    }
    while i < width
        invariant
            kept <= i <= width,
            kept <= raw@.len(),
            line@ == raw@.take(kept as int) + blanks((i - kept) as nat),
        decreases width - i,
    {
        line.push(32u8);
        assert(blanks((i + 1 - kept) as nat) =~= blanks((i - kept) as nat).push(32u8));
        i = i + 1;
    }
    line
}

/// The status line as it is written to a terminal of `width` columns.
pub fn status_line(
    frames: i32,
    cursor_x: &[u8],
    cursor_y: &[u8],
    dragging: bool,
    state: &[u8],
    width: usize,
) -> (line: Vec<u8>)
    ensures
        line@ == fitted(
            status_text(frames, cursor_x@, cursor_y@, dragging, state@),
            width as nat,
        ),
        line@.len() == width,
{
    let raw = render_status(frames, cursor_x, cursor_y, dragging, state);
    fit_to_width(raw.as_slice(), width)
}

/// Calls `termsize::get` and hands out the column count of what came back.
/// Trusted, and nothing is claimed: the answer depends on the terminal that
/// standard output is connected to, and there is none when it is not one.
#[verifier::external_body]
pub(crate) fn terminal_columns() -> (cols: Option<u16>) {
    termsize::get().map(|size| size.cols)
}

/// The status line fitted to the terminal as it is now, or nothing when the
/// terminal's size cannot be had.
pub fn status_line_for_terminal(
    frames: i32,
    cursor_x: &[u8],
    cursor_y: &[u8],
    dragging: bool,
    state: &[u8],
) -> (line: Option<Vec<u8>>)
    ensures
        line matches Some(l) ==> l@.len() <= u16::MAX && l@ == fitted(
            status_text(frames, cursor_x@, cursor_y@, dragging, state@),
            l@.len(),
        ),
{
    status_line_in_columns(frames, cursor_x, cursor_y, dragging, state, terminal_columns())
}

/// The status line for what a query of the terminal's size gave: fitted to
/// the columns where there are any, and nothing where the query failed.
pub fn status_line_in_columns(
    frames: i32,
    cursor_x: &[u8],
    cursor_y: &[u8],
    dragging: bool,
    state: &[u8],
    columns: Option<u16>,
) -> (line: Option<Vec<u8>>)
    ensures
        line is None <==> columns is None,
        columns matches Some(cols) ==> line matches Some(l) && l@.len() == cols && l@ == fitted(
            status_text(frames, cursor_x@, cursor_y@, dragging, state@),
            cols as nat,
        ),
{
    match columns {
        Some(cols) => Some(status_line(frames, cursor_x, cursor_y, dragging, state, cols as usize)),
        None => None,
    }
}

} // verus!
