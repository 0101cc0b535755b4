//! Global properties of the row-table model, stated once and proved for
//! every message sequence.

use vstd::prelude::*;
use crate::msg::MsgView;
use crate::table::{apply_all, apply_msg, grow_to, lookup, row_state, Table};

verus! {

/// One message moves exactly its own slot: `lookup` after `apply_msg` is the
/// written text for the targeted level and unchanged anywhere else.
pub proof fn lemma_apply_msg_lookup(t: Table, m: MsgView, level: nat)
    ensures
        lookup(apply_msg(t, m), level) == match m {
            MsgView::Update { level: l, line } => if l == level {
                Some(line)
            } else {
                lookup(t, level)
            },
            MsgView::Remove { level: l } => if l == level {
                None
            } else {
                lookup(t, level)
            },
            MsgView::Log { .. } => lookup(t, level),
        },
{
    match m {
        MsgView::Update { level: l, line } => {
            assert(grow_to(t, l + 1).len() >= l + 1);
            assert(lookup(grow_to(t, l + 1), level) == lookup(t, level));
        },
        MsgView::Remove { level: l } => {
            assert(grow_to(t, l + 1).len() >= l + 1);
            assert(lookup(grow_to(t, l + 1), level) == lookup(t, level));
        },
        MsgView::Log { .. } => {},
    }
}

/// After any message sequence, a slot holds exactly what the most recent
/// update or removal for its level left there: populated slots are precisely
/// the levels whose last such message was an update, with its text.
pub proof fn lemma_table_tracks_messages(msgs: Seq<MsgView>, level: nat)
    ensures
        lookup(apply_all(Seq::empty(), msgs), level) == row_state(msgs, level),
    decreases msgs.len(),
{
    if msgs.len() == 0 {
    } else {
        lemma_table_tracks_messages(msgs.drop_last(), level);
        lemma_apply_msg_lookup(apply_all(Seq::empty(), msgs.drop_last()), msgs.last(), level);
    }
}

/// Sending the same update twice in a row leaves the same table as sending
/// it once: repainting twice cannot change the rendered content.
pub proof fn lemma_update_idempotent(t: Table, level: nat, line: Seq<char>)
    ensures
        apply_msg(apply_msg(t, MsgView::Update { level, line }), MsgView::Update { level, line })
            == apply_msg(t, MsgView::Update { level, line }),
{
    let once = apply_msg(t, MsgView::Update { level, line });
    let twice = apply_msg(once, MsgView::Update { level, line });
    assert(grow_to(once, level + 1) =~= once);
    assert(twice =~= once);
}

/// Removing a level makes it absent; updating it afterwards makes it present
/// again with the new text, at the very same level.
pub proof fn lemma_remove_then_update(t: Table, level: nat, line: Seq<char>)
    ensures
        lookup(apply_msg(t, MsgView::Remove { level }), level) is None,
        lookup(
            apply_msg(apply_msg(t, MsgView::Remove { level }), MsgView::Update { level, line }),
            level,
        ) == Some(line),
{
    lemma_apply_msg_lookup(t, MsgView::Remove { level }, level);
    lemma_apply_msg_lookup(
        apply_msg(t, MsgView::Remove { level }),
        MsgView::Update { level, line },
        level,
    );
}

/// A log message never touches the row table: every level is present or
/// absent exactly as before.
pub proof fn lemma_log_leaves_table(t: Table, data: Seq<u8>)
    ensures
        apply_msg(t, MsgView::Log { data }) == t,
{
}

} // verus!
