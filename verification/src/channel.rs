//! The message transport: thin trusted shims over the standard library's
//! unbounded multi-producer single-consumer channel, and over shared-handle
//! cloning. A sending end carries the history of messages it handed over, so
//! producer contracts can say exactly what they enqueued; whether a send is
//! accepted depends on which other handles are still alive, so of each
//! outcome only its record is stated, and receivers state what holds
//! whatever comes back.

use vstd::prelude::*;
use std::sync::mpsc::{Receiver, Sender};
use std::sync::Arc;
use crate::msg::{MsgView, WriteMsg};

verus! {

#[verifier::external_type_specification]
#[verifier::external_body]
#[verifier::reject_recursive_types(T)]
pub struct ExSender<T>(Sender<T>);

#[verifier::external_type_specification]
#[verifier::external_body]
#[verifier::reject_recursive_types(T)]
pub struct ExReceiver<T>(Receiver<T>);

/// A sending end of the coordinator's channel, with the history of what this
/// handle handed to the transport: the message views in order, and for each
/// whether the transport still had a receiver to take it.
pub struct MsgSender {
    sender: Sender<WriteMsg>,
    history: Ghost<Seq<MsgView>>,
    accepted: Ghost<Seq<bool>>,
}

impl MsgSender {
    /// The messages this handle has handed to the transport, in order.
    pub closed spec fn sent(&self) -> Seq<MsgView> {
        self.history@
    }

    /// For each handed-over message, whether it was accepted.
    pub closed spec fn acks(&self) -> Seq<bool> {
        self.accepted@
    }

    pub(crate) fn make(sender: Sender<WriteMsg>) -> (r: MsgSender)
        ensures
            r.sent() == Seq::<MsgView>::empty(),
            r.acks() == Seq::<bool>::empty(),
    {
        MsgSender { sender, history: Ghost(Seq::empty()), accepted: Ghost(Seq::empty()) }
    }

    /// Another sending end of the same channel, counting as one more live
    /// sender, with its own empty history.
    pub(crate) fn duplicate(&self) -> (r: MsgSender)
        ensures
            r.sent() == Seq::<MsgView>::empty(),
            r.acks() == Seq::<bool>::empty(),
    {
        MsgSender {
            sender: clone_sender(&self.sender),
            history: Ghost(Seq::empty()),
            accepted: Ghost(Seq::empty()),
        }
    }

    /// Relies on Sender::send: hands exactly `m` to the channel, in arrival
    /// order and without blocking; it fails exactly when the receiving end
    /// is gone, and the message is then dropped. The histories record the
    /// one message this body sends and what the transport reported of it.
    #[verifier::external_body]
    pub(crate) fn send(&mut self, m: WriteMsg) -> (ok: bool)
        ensures
            final(self).sent() == old(self).sent() + seq![m@],
            final(self).acks() == old(self).acks() + seq![ok],
    {
        match self.sender.send(m) {
            Ok(()) => true,
            Err(_) => false,
        }
    }
}

/// Relies on std::sync::mpsc::channel: returns a connected sending and
/// receiving end of a fresh unbounded channel.
#[verifier::external_body]
pub(crate) fn make_channel() -> (Sender<WriteMsg>, Receiver<WriteMsg>) {
    std::sync::mpsc::channel()
}

/// Relies on Sender::clone: the clone feeds the same channel and counts as
/// one more live sender.
#[verifier::external_body]
pub(crate) fn clone_sender(s: &Sender<WriteMsg>) -> Sender<WriteMsg> {
    s.clone()
}

/// Relies on Receiver::recv: blocks for the next message; it fails exactly
/// when every sender is gone and the queue is empty.
#[verifier::external_body]
pub(crate) fn recv_msg(r: &Receiver<WriteMsg>) -> Option<WriteMsg> {
    match r.recv() {
        Ok(m) => Some(m),
        Err(_) => None,
    }
}

/// Relies on Receiver::try_recv: hands out a queued message without
/// blocking, and nothing when the queue is empty or every sender is gone.
#[verifier::external_body]
pub(crate) fn try_recv_msg(r: &Receiver<WriteMsg>) -> Option<WriteMsg> {
    match r.try_recv() {
        Ok(m) => Some(m),
        Err(_) => None,
    }
}

/// Relies on Arc::clone: the returned handle shares the same allocation.
#[verifier::external_body]
pub(crate) fn clone_arc<T>(x: &Arc<T>) -> Arc<T> {
    x.clone()
}

} // verus!
