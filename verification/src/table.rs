//! The row table model: how a sequence of messages determines which rows are
//! present and with what text.

use vstd::prelude::*;
use crate::msg::{MsgView, ParsedView};

verus! {

/// A row table: one slot per level; `None` renders nothing.
pub type Table = Seq<Option<Seq<char>>>;

/// The slot at `level`, with levels beyond the table's length read as absent.
pub open spec fn lookup(t: Table, level: nat) -> Option<Seq<char>> {
    if level < t.len() {
        t[level as int]
    } else {
        None
    }
}

/// `t` extended with absent slots until it covers at least `n` levels.
pub open spec fn grow_to(t: Table, n: nat) -> Table {
    if t.len() >= n {
        t
    } else {
        t + Seq::new((n - t.len()) as nat, |i: int| None)
    }
}

/// The table after one message: updates and removals write their slot,
/// growing the table to cover the level; log entries leave it alone.
pub open spec fn apply_msg(t: Table, m: MsgView) -> Table {
    match m {
        MsgView::Update { level, line } => grow_to(t, level + 1).update(
            level as int,
            Some(line),
        ),
        MsgView::Remove { level } => grow_to(t, level + 1).update(level as int, None),
        MsgView::Log { .. } => t,
    }
}

/// The table after a whole sequence of messages, applied in order.
pub open spec fn apply_all(t: Table, msgs: Seq<MsgView>) -> Table
    decreases msgs.len(),
{
    if msgs.len() == 0 {
        t
    } else {
        apply_msg(apply_all(t, msgs.drop_last()), msgs.last())
    }
}

/// How one message is classified against the table it meets: text appearing
/// on an absent or new slot and every removal need a full repaint; text
/// replacing text is a localized change; log entries repaint only when the
/// payload is non-empty.
pub open spec fn classify(t: Table, m: MsgView) -> ParsedView {
    match m {
        MsgView::Update { level, line } => {
            if lookup(t, level) is None {
                ParsedView::Refresh
            } else {
                ParsedView::Changed { level }
            }
        },
        MsgView::Remove { .. } => ParsedView::Refresh,
        MsgView::Log { data } => {
            if data.len() == 0 {
                ParsedView::NoChanges
            } else {
                ParsedView::Log { data }
            }
        },
    }
}

/// The row text that the most recent update or removal for `level` left
/// behind, read off the message sequence alone; `None` when the last such
/// message was a removal or none was ever sent.
pub open spec fn row_state(msgs: Seq<MsgView>, level: nat) -> Option<Seq<char>>
    decreases msgs.len(),
{
    if msgs.len() == 0 {
        None
    } else {
        match msgs.last() {
            MsgView::Update { level: l, line } => if l == level {
                Some(line)
            } else {
                row_state(msgs.drop_last(), level)
            },
            MsgView::Remove { level: l } => if l == level {
                None
            } else {
                row_state(msgs.drop_last(), level)
            },
            MsgView::Log { .. } => row_state(msgs.drop_last(), level),
        }
    }
}

/// How many slots of `t` are present.
pub open spec fn present_count(t: Table) -> nat
    decreases t.len(),
{
    if t.len() == 0 {
        0
    } else {
        present_count(t.drop_last()) + if t.last() is Some {
            1nat
        } else {
            0nat
        }
    }
}

} // verus!
