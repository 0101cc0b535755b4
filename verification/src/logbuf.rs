//! The log-buffering adapter: turns arbitrary byte writes into whole log
//! lines on the coordinator's channel, so unrelated textual output can
//! interleave with the progress display instead of corrupting it.

use vstd::prelude::*;
use crate::channel::MsgSender;
use crate::msg::{MsgView, WriteMsg};

verus! {

/// The position of the last line feed in `s`, if any.
pub open spec fn last_newline(s: Seq<u8>) -> Option<int>
    decreases s.len(),
{
    if s.len() == 0 {
        None
    } else if s.last() == 10u8 {
        Some(s.len() - 1)
    } else {
        last_newline(s.drop_last())
    }
}

/// A suffix free of line feeds does not move the last one.
proof fn lemma_last_newline_ignores_tail(s: Seq<u8>, i: int)
    requires
        0 <= i <= s.len(),
        forall|j: int| i <= j < s.len() ==> s[j] != 10u8,
    ensures
        last_newline(s) == last_newline(s.subrange(0, i)),
    decreases s.len() - i,
{
    if i == s.len() {
        assert(s.subrange(0, i) =~= s);
    } else {
        assert(s.last() != 10u8);
        assert(s.drop_last() =~= s.subrange(0, s.len() - 1));
        lemma_last_newline_ignores_tail(s.subrange(0, s.len() - 1), i);
        assert(s.subrange(0, s.len() - 1).subrange(0, i) =~= s.subrange(0, i));
    }
}

/// Where `last_newline` points, a line feed stands, and none after it.
pub proof fn lemma_last_newline_found(s: Seq<u8>)
    requires
        last_newline(s) is Some,
    ensures
        ({
            let j = last_newline(s)->Some_0;
            &&& 0 <= j < s.len()
            &&& s[j] == 10u8
            &&& forall|k: int| j < k < s.len() ==> s[k] != 10u8
        }),
    decreases s.len(),
{
    if s.len() > 0 && s.last() != 10u8 {
        lemma_last_newline_found(s.drop_last());
        assert(s.drop_last() =~= s.subrange(0, s.len() - 1));
        let j = last_newline(s)->Some_0;
        assert(forall|k: int| j < k < s.len() - 1 ==> s.drop_last()[k] == s[k]);
    }
}

/// One write conserves bytes: the forwarded payload with its line feed put
/// back, followed by the retained remainder, is exactly the old buffer plus
/// the input. Chained over any sequence of calls, the lines a `LogTarget`
/// forwarded and what it still buffers together hold every byte it ever
/// accepted.
pub proof fn lemma_write_conserves_bytes(buf: Seq<u8>, data: Seq<u8>)
    ensures
        ({
            let c = buf + data;
            match last_newline(c) {
                Some(j) => c.subrange(0, j) + seq![10u8] + c.subrange(j + 1, c.len() as int) == c,
                None => true,
            }
        }),
{
    let c = buf + data;
    match last_newline(c) {
        Some(j) => {
            lemma_last_newline_found(c);
            assert(c.subrange(0, j) + seq![10u8] + c.subrange(j + 1, c.len() as int) =~= c);
        },
        None => {},
    }
}

/// The send failed: the listener is gone, and the line was dropped.
pub struct ChannelClosed;

/// An accumulating byte buffer bound to one coordinator's channel.
pub struct LogTarget {
    buf: Vec<u8>,
    send: MsgSender,
}

impl LogTarget {
    /// The bytes accepted but not yet forwarded: everything after the last
    /// line feed seen so far.
    pub closed spec fn buffered(&self) -> Seq<u8> {
        self.buf@
    }

    /// The log messages this adapter has handed to the channel, in order.
    pub closed spec fn sent(&self) -> Seq<MsgView> {
        self.send.sent()
    }

    /// For each handed-over message, whether the transport accepted it.
    pub closed spec fn acks(&self) -> Seq<bool> {
        self.send.acks()
    }

    pub(crate) fn make(send: MsgSender) -> (r: LogTarget)
        ensures
            r.buffered() == Seq::<u8>::empty(),
            r.sent() == send.sent(),
            r.acks() == send.acks(),
    {
        let r = LogTarget { buf: Vec::new(), send };
        proof {
            assert(r.buffered() =~= Seq::<u8>::empty());
        }
        r
    }

    /// Accepts `data` in full. Everything up to the last line feed of the
    /// combined buffer is forwarded as one log message, with that line feed
    /// stripped; the remainder stays buffered, and a partial line is never
    /// forwarded here. The result reports the count of bytes accepted, or
    /// that the listener was gone while a complete line was due.
    pub fn write(&mut self, data: &Vec<u8>) -> (r: Result<usize, ChannelClosed>)
        ensures
            ({
                let c = old(self).buffered() + data@;
                match last_newline(c) {
                    Some(j) => {
                        &&& final(self).buffered() == c.subrange(j + 1, c.len() as int)
                        &&& final(self).sent() == old(self).sent() + seq![
                            MsgView::Log { data: c.subrange(0, j) },
                        ]
                        &&& final(self).acks() == old(self).acks() + seq![r is Ok]
                    },
                    None => {
                        &&& final(self).buffered() == c
                        &&& final(self).sent() == old(self).sent()
                        &&& final(self).acks() == old(self).acks()
                        &&& r is Ok
                    },
                }
            }),
            r is Ok ==> r->Ok_0 == data@.len(),
    {
        crate::render::append_bytes(&mut self.buf, data);
        let ghost c: Seq<u8> = self.buf@;
        let mut pos: usize = self.buf.len();
        let mut found = false;
        while pos > 0 && !found
            invariant
                c == self.buf@,
                pos <= c.len(),
                !found ==> forall|j: int| pos <= j < c.len() ==> c[j] != 10u8,
                found ==> pos < c.len() && c[pos as int] == 10u8 && forall|j: int|
                    pos < j < c.len() ==> c[j] != 10u8,
            decreases pos,
        {
            pos = pos - 1;
            if self.buf[pos] == 10 {
                found = true;
            }
        }
        if found {
            proof {
                lemma_last_newline_ignores_tail(c, pos + 1);
                assert(c.subrange(0, pos + 1).last() == 10u8);
                assert(last_newline(c) == Some(pos as int));
            }
            let rest = self.buf.split_off(pos + 1);
            let mut keep = rest;
            self.buf.truncate(pos);
            proof {
                assert(self.buf@ =~= c.subrange(0, pos as int));
            }
            std::mem::swap(&mut self.buf, &mut keep);
            proof {
                assert(keep@ =~= c.subrange(0, pos as int));
                assert(self.buf@ =~= c.subrange(pos + 1, c.len() as int));
            }
            let ok = self.send.send(WriteMsg::Log { data: keep });
            if ok {
                Ok(data.len())
            } else {
                Err(ChannelClosed)
            }
        } else {
            proof {
                lemma_last_newline_ignores_tail(c, 0);
                assert(c.subrange(0, 0) =~= Seq::<u8>::empty());
                assert(last_newline(c) is None);
            }
            Ok(data.len())
        }
    }

    /// Forwards whatever is buffered as one log message, line feed or not,
    /// and empties the buffer. The one way a partial line goes out. The
    /// result reports whether the transport took the message.
    pub fn flush(&mut self) -> (r: Result<(), ChannelClosed>)
        ensures
            final(self).buffered() == Seq::<u8>::empty(),
            final(self).sent() == old(self).sent() + seq![
                MsgView::Log { data: old(self).buffered() },
            ],
            final(self).acks() == old(self).acks() + seq![r is Ok],
    {
        let mut msg: Vec<u8> = Vec::new();
        std::mem::swap(&mut self.buf, &mut msg);
        let ok = self.send.send(WriteMsg::Log { data: msg });
        if ok {
            Ok(())
        } else {
            Err(ChannelClosed)
        }
    }
}

} // verus!
