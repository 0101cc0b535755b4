//! The producer side: the shared level allocator, the `MultiBar` front door,
//! and the per-row `MultiBarLine` handle. Each handle's contract says, over
//! its sent-history, exactly which messages it handed to the channel.

use vstd::prelude::*;
use vstd::string::StrSliceExecFns;
use vstd::string::StringSliceAdditionalSpecFns;
use vstd::utf8::encode_utf8;
use std::sync::atomic::{AtomicUsize, Ordering};
use std::sync::Arc;
use crate::channel::{clone_arc, make_channel, MsgSender};
use crate::listener::MultiBarListener;
use crate::logbuf::LogTarget;
use crate::msg::{MsgView, WriteMsg};
use crate::sink::Sink;

verus! {

/// The row allocator: a monotonically increasing counter shared by every
/// handle, so each new line gets a level no other line ever had. The value a
/// given call returns depends on every thread holding a handle, so nothing
/// is stated of it.
pub struct SharedState {
    nlines: Arc<AtomicUsize>,
}

impl SharedState {
    /// A fresh allocator, handing out levels from zero up.
    fn new() -> SharedState {
        SharedState { nlines: Arc::new(AtomicUsize::new(0)) }
    }

    /// Another handle on the same counter.
    fn share(&self) -> SharedState {
        SharedState { nlines: clone_arc(&self.nlines) }
    }

    /// Takes the next level: returns the counter and advances it, atomically,
    /// so no two calls anywhere in the process get the same level until the
    /// counter wraps.
    pub fn new_level(&self) -> usize {
        self.nlines.fetch_add(1, Ordering::SeqCst)
    }
}

/// The front door: creates lines and log targets, all feeding one listener.
pub struct MultiBar {
    shared: SharedState,
    send: MsgSender,
}

impl MultiBar {
    /// A coordinator writing to `handle`: the creation side and the
    /// listening side of a fresh channel, with no rows yet.
    pub fn on<T: Sink>(handle: T) -> (r: (MultiBar, MultiBarListener<T>))
        ensures
            r.1.table() == Seq::<Option<Seq<char>>>::empty(),
            r.1.last_drawn() == 0,
            r.1.sink_view() == handle,
    {
        let (send, recv) = make_channel();
        (
            MultiBar { shared: SharedState::new(), send: MsgSender::make(send) },
            MultiBarListener::make(recv, handle),
        )
    }

    /// A handle on a freshly allocated level, with no text yet and nothing
    /// sent yet.
    pub fn new_line(&self) -> (r: MultiBarLine)
        ensures
            r.is_active(),
            !r.is_removed(),
            r.sent() == Seq::<MsgView>::empty(),
    {
        let level = self.shared.new_level();
        MultiBarLine {
            level,
            send: Some(self.send.duplicate()),
            shared: self.shared.share(),
            removed: false,
        }
    }

    /// A line already carrying `s`: a header or a separator between bars.
    /// The returned handle has enqueued exactly one update, putting `s` on
    /// its own freshly allocated level.
    pub fn println(&self, s: &str) -> (r: MultiBarLine)
        ensures
            r.is_active(),
            !r.is_removed(),
            r.sent() == seq![MsgView::Update { level: r.level_of(), line: s@ }],
    {
        let mut line = self.new_line();
        line.update_line(s);
        proof {
            assert(line.sent() =~= seq![
                MsgView::Update { level: line.level_of(), line: s@ },
            ]);
        }
        line
    }

    /// A buffering adapter that turns raw writes into whole log lines on
    /// this coordinator's channel.
    pub fn create_log_target(&self) -> (r: LogTarget)
        ensures
            r.buffered() == Seq::<u8>::empty(),
            r.sent() == Seq::<MsgView>::empty(),
            r.acks() == Seq::<bool>::empty(),
    {
        LogTarget::make(self.send.duplicate())
    }
}

/// A capability to one displayed row, held by the producer that renders it.
pub struct MultiBarLine {
    level: usize,
    send: Option<MsgSender>,
    shared: SharedState,
    removed: bool,
}

impl MultiBarLine {
    /// Whether this handle can still enqueue: `finish` has not been called.
    pub closed spec fn is_active(&self) -> bool {
        self.send is Some
    }

    /// Whether this handle's row was removed, making later updates inert.
    pub closed spec fn is_removed(&self) -> bool {
        self.removed
    }

    /// The level this handle is bound to.
    pub closed spec fn level_of(&self) -> nat {
        self.level as nat
    }

    /// The messages this handle has handed to the channel, in order; empty
    /// once the handle has finished.
    pub closed spec fn sent(&self) -> Seq<MsgView> {
        match self.send {
            Some(s) => s.sent(),
            None => Seq::empty(),
        }
    }

    /// A handle on a brand-new level, for a line created after the listener
    /// already started; nothing sent on it yet.
    pub fn new_line(&self) -> (r: MultiBarLine)
        ensures
            r.is_active() == self.is_active(),
            !r.is_removed(),
            r.sent() == Seq::<MsgView>::empty(),
    {
        let level = self.shared.new_level();
        MultiBarLine {
            level,
            send: match &self.send {
                Some(s) => Some(s.duplicate()),
                None => None,
            },
            shared: self.shared.share(),
            removed: false,
        }
    }

    /// Hands `m` to the channel if this handle is still active. A failed
    /// send means the listener is gone; the message is dropped and nobody
    /// panics, since the row's next successful update supersedes it anyway.
    fn send(&mut self, m: WriteMsg)
        ensures
            final(self).is_active() == old(self).is_active(),
            final(self).is_removed() == old(self).is_removed(),
            final(self).level_of() == old(self).level_of(),
            old(self).is_active() ==> final(self).sent() == old(self).sent() + seq![m@],
            !old(self).is_active() ==> *final(self) == *old(self),
    {
        match &mut self.send {
            Some(s) => {
                let _ = s.send(m);
            },
            None => {},
        }
    }

    /// Enqueues exactly one update carrying this handle's level and `line`.
    /// Inert once the row was removed or the handle finished.
    pub fn update_line(&mut self, line: &str)
        ensures
            final(self).is_active() == old(self).is_active(),
            final(self).is_removed() == old(self).is_removed(),
            final(self).level_of() == old(self).level_of(),
            old(self).is_active() && !old(self).is_removed() ==> final(self).sent() == old(
                self,
            ).sent() + seq![MsgView::Update { level: old(self).level_of(), line: line@ }],
            !(old(self).is_active() && !old(self).is_removed()) ==> *final(self) == *old(self),
    {
        if !self.removed {
            let m = WriteMsg::UpdateLine { level: self.level, line: line.to_owned() };
            self.send(m);
        }
    }

    /// Enqueues the removal of this row, once, and makes later updates on
    /// this handle inert. The level is never handed to another line.
    pub fn remove_line(&mut self)
        ensures
            final(self).is_removed(),
            final(self).is_active() == old(self).is_active(),
            final(self).level_of() == old(self).level_of(),
            old(self).is_active() && !old(self).is_removed() ==> final(self).sent() == old(
                self,
            ).sent() + seq![MsgView::Remove { level: old(self).level_of() }],
            !old(self).is_active() ==> final(self).sent() == old(self).sent(),
            old(self).is_removed() ==> *final(self) == *old(self),
    {
        if !self.removed {
            let m = WriteMsg::RemoveLine { level: self.level };
            self.send(m);
            self.removed = true;
        }
    }

    /// Enqueues exactly one detached log entry carrying `message`'s bytes,
    /// unrelated to this handle's own row; still works after a removal.
    pub fn log(&mut self, message: &str)
        ensures
            final(self).is_active() == old(self).is_active(),
            final(self).is_removed() == old(self).is_removed(),
            final(self).level_of() == old(self).level_of(),
            old(self).is_active() ==> final(self).sent() == old(self).sent() + seq![
                MsgView::Log { data: encode_utf8(message@) },
            ],
            !old(self).is_active() ==> *final(self) == *old(self),
    {
        let bytes = message.as_bytes_vec();
        let m = WriteMsg::Log { data: bytes };
        self.send(m);
    }

    /// Drops this handle's sender. Once every handle and log target of a
    /// coordinator has finished, the listener's receive fails and its loop
    /// ends: this is the sole termination signal.
    pub fn finish(&mut self)
        ensures
            !final(self).is_active(),
            final(self).is_removed() == old(self).is_removed(),
            final(self).level_of() == old(self).level_of(),
            final(self).sent() == Seq::<MsgView>::empty(),
    {
        self.send = None;
    }
}

/// What a line-content producer needs of a row: the three operations every
/// progress renderer drives, implemented by `MultiBarLine` and open to
/// alternative receivers such as a discarding one.
pub trait ProgressReceiver {
    /// Replace the row's text with the producer's current status line.
    fn update_progress(&mut self, line: &str);

    /// Replace the row's text on the way out, clearing leftovers.
    fn clear_progress(&mut self, line: &str);

    /// Retire the row into a permanently scrolled log line.
    fn finish_with(&mut self, line: &str);
}

impl ProgressReceiver for MultiBarLine {
    fn update_progress(&mut self, line: &str) {
        self.update_line(line);
    }

    fn clear_progress(&mut self, line: &str) {
        self.update_line(line);
    }

    fn finish_with(&mut self, line: &str) {
        self.log(line);
    }
}

/// A receiver that drops everything: for callers that want a renderer's
/// progress silenced without changing the renderer.
pub struct DiscardReceiver;

impl ProgressReceiver for DiscardReceiver {
    fn update_progress(&mut self, _line: &str) {
    }

    fn clear_progress(&mut self, _line: &str) {
    }

    fn finish_with(&mut self, _line: &str) {
    }
}

} // verus!
