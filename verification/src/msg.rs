//! The message protocol between line handles and the listener.

use vstd::prelude::*;

verus! {

/// A message enqueued by a producer and consumed once by the listener.
pub enum WriteMsg {
    /// Put `line` at row `level`, growing the row table when needed.
    UpdateLine { level: usize, line: String },
    /// Make row `level` absent.
    RemoveLine { level: usize },
    /// A detached one-shot log entry, unrelated to any row.
    Log { data: Vec<u8> },
}

/// The mathematical form of a message: levels as naturals, text as sequences.
pub enum MsgView {
    Update { level: nat, line: Seq<char> },
    Remove { level: nat },
    Log { data: Seq<u8> },
}

impl View for WriteMsg {
    type V = MsgView;

    open spec fn view(&self) -> MsgView {
        match self {
            WriteMsg::UpdateLine { level, line } => MsgView::Update {
                level: *level as nat,
                line: line@,
            },
            WriteMsg::RemoveLine { level } => MsgView::Remove { level: *level as nat },
            WriteMsg::Log { data } => MsgView::Log { data: data@ },
        }
    }
}

/// What the listener concluded about one message.
pub enum ParsedMessage {
    /// Nothing to repaint (an empty log payload).
    NoChanges,
    /// A present row changed its text in place.
    Changed { level: usize },
    /// A log entry to interleave above the rows on the next repaint.
    Log { data: Vec<u8> },
    /// The set of visible rows changed; a full repaint is due.
    Refresh,
}

/// The mathematical form of a classification result.
pub enum ParsedView {
    NoChanges,
    Changed { level: nat },
    Log { data: Seq<u8> },
    Refresh,
}

impl View for ParsedMessage {
    type V = ParsedView;

    open spec fn view(&self) -> ParsedView {
        match self {
            ParsedMessage::NoChanges => ParsedView::NoChanges,
            ParsedMessage::Changed { level } => ParsedView::Changed { level: *level as nat },
            ParsedMessage::Log { data } => ParsedView::Log { data: data@ },
            ParsedMessage::Refresh => ParsedView::Refresh,
        }
    }
}

} // verus!
