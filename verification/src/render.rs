//! Frame rendering: the terminal control sequences and the exact bytes one
//! repaint writes to the sink.

use vstd::prelude::*;
use vstd::string::StrSliceExecFns;
use vstd::string::StringSliceAdditionalSpecFns;
use vstd::utf8::encode_utf8;
use crate::digits::{dec_of, to_decimal};
use crate::table::{present_count, Table};

verus! {

/// Moves the cursor up `n` rows.
pub open spec fn cursor_up_seq(n: nat) -> Seq<u8> {
    seq![27u8, 91u8] + dec_of(n) + seq![65u8]
}

/// Erases from the cursor to the end of the line.
pub open spec fn clear_line_seq() -> Seq<u8> {
    seq![27u8, 91u8, 75u8]
}

/// Erases from the cursor to the end of the screen.
pub open spec fn clear_after_seq() -> Seq<u8> {
    seq![27u8, 91u8, 74u8]
}

/// One painted row: carriage return, the text, erase any leftover tail of a
/// longer earlier render, then a line feed.
pub open spec fn row_bytes(line: Seq<char>) -> Seq<u8> {
    seq![13u8] + encode_utf8(line) + clear_line_seq() + seq![10u8]
}

/// The stacked rows of a repaint: every present slot in table order, absent
/// slots contributing nothing.
pub open spec fn rows_bytes(t: Table) -> Seq<u8>
    decreases t.len(),
{
    if t.len() == 0 {
        Seq::empty()
    } else {
        rows_bytes(t.drop_last()) + match t.last() {
            Some(line) => row_bytes(line),
            None => Seq::empty(),
        }
    }
}

/// An interleaved log line: return to column zero, erase the old frame below,
/// the raw payload, then a line feed that scrolls it into history.
pub open spec fn log_bytes(data: Seq<u8>) -> Seq<u8> {
    seq![13u8] + clear_after_seq() + data + seq![10u8]
}

/// Everything one repaint writes: a cursor-up over the rows the previous
/// repaint wrote (none on the first), the optional log line, then the rows.
pub open spec fn frame_bytes(t: Table, prev: nat, log: Option<Seq<u8>>) -> Seq<u8> {
    (if prev > 0 {
        cursor_up_seq(prev)
    } else {
        Seq::empty()
    }) + (match log {
        Some(data) => log_bytes(data),
        None => Seq::empty(),
    }) + rows_bytes(t)
}

/// Appends `data` to `out`.
pub fn append_bytes(out: &mut Vec<u8>, data: &Vec<u8>)
    ensures
        final(out)@ == old(out)@ + data@,
{
    let mut j: usize = 0;
    while j < data.len()
        invariant
            j <= data.len(),
            out@ == old(out)@ + data@.subrange(0, j as int),
        decreases data.len() - j,
    {
        out.push(data[j]);
        j += 1;
        assert(out@ =~= old(out)@ + data@.subrange(0, j as int));
    }
    assert(out@ =~= old(out)@ + data@);
}

/// The escape sequence that moves the cursor up `n` rows.
pub fn move_cursor_up(n: usize) -> (s: Vec<u8>)
    ensures
        s@ == cursor_up_seq(n as nat),
{
    let mut s: Vec<u8> = Vec::new();
    s.push(27);
    s.push(91);
    let digits = to_decimal(n);
    append_bytes(&mut s, &digits);
    s.push(65);
    assert(s@ =~= cursor_up_seq(n as nat));
    s
}

/// The escape sequence that erases to the end of the line.
pub fn clear_until_newline() -> (s: Vec<u8>)
    ensures
        s@ == clear_line_seq(),
{
    let mut s: Vec<u8> = Vec::new();
    s.push(27);
    s.push(91);
    s.push(75);
    assert(s@ =~= clear_line_seq());
    s
}

/// The escape sequence that erases to the end of the screen.
pub fn clear_after_cursor() -> (s: Vec<u8>)
    ensures
        s@ == clear_after_seq(),
{
    let mut s: Vec<u8> = Vec::new();
    s.push(27);
    s.push(91);
    s.push(74);
    assert(s@ =~= clear_after_seq());
    s
}

/// Builds the bytes of one repaint and counts the rows it writes: exactly the
/// currently present slots, each painted once, in table order.
pub fn render_frame(lines: &Vec<Option<String>>, prev: usize, log: &Option<Vec<u8>>) -> (r: (
    Vec<u8>,
    usize,
))
    ensures
        r.0@ == frame_bytes(lines.deep_view(), prev as nat, log.deep_view()),
        r.1 as nat == present_count(lines.deep_view()),
{
    let ghost t: Table = lines.deep_view();
    let mut out: Vec<u8> = Vec::new();
    if prev > 0 {
        let up = move_cursor_up(prev);
        append_bytes(&mut out, &up);
    }
    if let Some(data) = log {
        out.push(13);
        let clr = clear_after_cursor();
        append_bytes(&mut out, &clr);
        append_bytes(&mut out, data);
        out.push(10);
    }
    let ghost head: Seq<u8> = out@;
    assert(head == (if prev > 0 {
        cursor_up_seq(prev as nat)
    } else {
        Seq::<u8>::empty()
    }) + (match log.deep_view() {
        Some(data) => log_bytes(data),
        None => Seq::<u8>::empty(),
    }));
    let mut count: usize = 0;
    let mut i: usize = 0;
    while i < lines.len()
        invariant
            i <= lines.len(),
            t == lines.deep_view(),
            t.len() == lines.len(),
            count as nat == present_count(t.subrange(0, i as int)),
            count <= i,
            out@ == head + rows_bytes(t.subrange(0, i as int)),
        decreases lines.len() - i,
    {
        let ghost before: Table = t.subrange(0, i as int);
        match &lines[i] {
            Some(line) => {
                out.push(13);
                let bytes = line.as_str().as_bytes_vec();
                append_bytes(&mut out, &bytes);
                let clr = clear_until_newline();
                append_bytes(&mut out, &clr);
                out.push(10);
                count += 1;
                proof {
                    assert(t[i as int] is Some);
                    assert(bytes@ == encode_utf8(line@));
                }
            },
            None => {
                proof {
                    assert(t[i as int] is None);
                }
            },
        }
        i += 1;
        proof {
            let after = t.subrange(0, i as int);
            assert(after.drop_last() =~= before);
            assert(after.last() == t[i - 1]);
            assert(out@ =~= head + rows_bytes(after));
        }
    }
    proof {
        assert(t.subrange(0, t.len() as int) =~= t);
    }
    (out, count)
}

} // verus!
