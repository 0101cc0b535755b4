//! The single consumer: owns the row table and the sink, classifies each
//! message, and repaints.

use vstd::prelude::*;
use std::sync::mpsc::Receiver;
use crate::channel::{recv_msg, try_recv_msg};
use crate::msg::{MsgView, ParsedMessage, ParsedView, WriteMsg};
use crate::render::{frame_bytes, render_frame};
use crate::sink::Sink;
use crate::table::{apply_all, apply_msg, classify, lookup, present_count, Table};

verus! {

/// What one steady-state message makes the listener write: nothing for an
/// empty log payload, else a full frame over the updated table, with the log
/// payload interleaved when there is one.
pub open spec fn step_output(t: Table, prev: nat, m: MsgView) -> Seq<u8> {
    match classify(t, m) {
        ParsedView::NoChanges => Seq::empty(),
        ParsedView::Log { data } => frame_bytes(apply_msg(t, m), prev, Some(data)),
        ParsedView::Changed { .. } => frame_bytes(apply_msg(t, m), prev, None),
        ParsedView::Refresh => frame_bytes(apply_msg(t, m), prev, None),
    }
}

/// How many rows the listener has on screen after that message.
pub open spec fn step_rows(t: Table, prev: nat, m: MsgView) -> nat {
    match classify(t, m) {
        ParsedView::NoChanges => prev,
        _ => present_count(apply_msg(t, m)),
    }
}

/// What the warm-up writes for a batch of messages: only the non-empty log
/// payloads, raw and in order; row changes wait for the first repaint.
pub open spec fn warm_output(msgs: Seq<MsgView>) -> Seq<u8>
    decreases msgs.len(),
{
    if msgs.len() == 0 {
        Seq::empty()
    } else {
        warm_output(msgs.drop_last()) + match msgs.last() {
            MsgView::Log { data } => if data.len() > 0 {
                data
            } else {
                Seq::empty()
            },
            _ => Seq::empty(),
        }
    }
}

/// The repaint baseline after a run of steady-state messages that started
/// from table `t` with `prev` rows on screen.
pub open spec fn rows_after(t: Table, prev: nat, steps: Seq<MsgView>) -> nat
    decreases steps.len(),
{
    if steps.len() == 0 {
        prev
    } else {
        step_rows(
            apply_all(t, steps.drop_last()),
            rows_after(t, prev, steps.drop_last()),
            steps.last(),
        )
    }
}

/// Everything a run of steady-state messages writes: one `step_output` per
/// message, each over the table and baseline the messages before it left.
pub open spec fn run_output(t: Table, prev: nat, steps: Seq<MsgView>) -> Seq<u8>
    decreases steps.len(),
{
    if steps.len() == 0 {
        Seq::empty()
    } else {
        run_output(t, prev, steps.drop_last()) + step_output(
            apply_all(t, steps.drop_last()),
            rows_after(t, prev, steps.drop_last()),
            steps.last(),
        )
    }
}

/// A listener's whole life, starting from table `t` and baseline `prev`:
/// the warm-up writes only the queued log payloads, one deferred frame
/// paints the warmed-up table, then every steady-state message writes its
/// own repaint.
pub open spec fn session_output(t: Table, prev: nat, warm: Seq<MsgView>, steps: Seq<MsgView>) -> Seq<
    u8,
> {
    warm_output(warm) + frame_bytes(apply_all(t, warm), prev, None) + run_output(
        apply_all(t, warm),
        present_count(apply_all(t, warm)),
        steps,
    )
}

/// The listener: the one place the row table and the sink are touched.
pub struct MultiBarListener<T: Sink> {
    recv: Receiver<WriteMsg>,
    lines: Vec<Option<String>>,
    prev_rows: usize,
    handle: T,
}

impl<T: Sink> MultiBarListener<T> {
    /// The row table: one slot per level seen so far.
    pub closed spec fn table(&self) -> Table {
        self.lines.deep_view()
    }

    /// The number of rows the previous repaint wrote: the cursor-up distance
    /// of the next one.
    pub closed spec fn last_drawn(&self) -> nat {
        self.prev_rows as nat
    }

    /// The sink's state.
    pub closed spec fn sink_view(&self) -> T {
        self.handle
    }

    /// The receiving end this listener drains.
    pub closed spec fn source(&self) -> Receiver<WriteMsg> {
        self.recv
    }

    pub(crate) fn make(recv: Receiver<WriteMsg>, handle: T) -> (r: MultiBarListener<T>)
        ensures
            r.table() == Seq::<Option<Seq<char>>>::empty(),
            r.last_drawn() == 0,
            r.sink_view() == handle,
            r.source() == recv,
    {
        let r = MultiBarListener { recv, lines: Vec::new(), prev_rows: 0, handle };
        proof {
            assert(r.table() =~= Seq::<Option<Seq<char>>>::empty());
        }
        r
    }

    /// The sink, for looking at what has been written.
    pub fn sink(&self) -> (r: &T)
        ensures
            *r == self.sink_view(),
    {
        &self.handle
    }

    /// The sink, for draining what has been written; the rows, the baseline
    /// and the channel stay as they are.
    pub fn sink_mut(&mut self) -> (r: &mut T)
        ensures
            *r == old(self).sink_view(),
            final(self).sink_view() == *final(r),
            final(self).table() == old(self).table(),
            final(self).last_drawn() == old(self).last_drawn(),
            final(self).source() == old(self).source(),
    {
        &mut self.handle
    }

    /// The slot at `level`, absent for levels never seen.
    pub fn row(&self, level: usize) -> (r: Option<String>)
        ensures
            r.deep_view() == lookup(self.table(), level as nat),
    {
        if level < self.lines.len() {
            match &self.lines[level] {
                Some(line) => Some(line.clone()),
                None => None,
            }
        } else {
            None
        }
    }

    /// Applies one message to the row table and classifies it; the sink, the
    /// repaint baseline and the channel are untouched.
    pub fn parse_message(&mut self, msg: WriteMsg) -> (p: ParsedMessage)
        ensures
            final(self).table() == apply_msg(old(self).table(), msg@),
            p@ == classify(old(self).table(), msg@),
            final(self).sink_view() == old(self).sink_view(),
            final(self).last_drawn() == old(self).last_drawn(),
            final(self).source() == old(self).source(),
    {
        let ghost t0: Table = self.table();
        let ghost mv: MsgView = msg@;
        match msg {
            WriteMsg::UpdateLine { level, line } => {
                let was_absent = if level >= self.lines.len() {
                    self.grow_to_cover(level);
                    true
                } else {
                    self.lines[level].is_none()
                };
                self.lines.set(level, Some(line));
                proof {
                    assert(self.table() =~= apply_msg(t0, mv));
                }
                if was_absent {
                    ParsedMessage::Refresh
                } else {
                    ParsedMessage::Changed { level }
                }
            },
            WriteMsg::RemoveLine { level } => {
                if level >= self.lines.len() {
                    self.grow_to_cover(level);
                }
                self.lines.set(level, None);
                proof {
                    assert(self.table() =~= apply_msg(t0, mv));
                }
                ParsedMessage::Refresh
            },
            WriteMsg::Log { data } => {
                if data.len() == 0 {
                    ParsedMessage::NoChanges
                } else {
                    ParsedMessage::Log { data }
                }
            },
        }
    }

    /// Grows the table with absent slots until it covers `level`.
    fn grow_to_cover(&mut self, level: usize)
        requires
            old(self).lines@.len() <= level,
        ensures
            final(self).lines@ == old(self).lines@ + Seq::new(
                (level + 1 - old(self).lines@.len()) as nat,
                |i: int| None::<String>,
            ),
            final(self).sink_view() == old(self).sink_view(),
            final(self).last_drawn() == old(self).last_drawn(),
            final(self).source() == old(self).source(),
    {
        let ghost init: Seq<Option<String>> = self.lines@;
        let ghost n0: int = init.len() as int;
        while self.lines.len() <= level
            invariant
                n0 == init.len(),
                n0 <= self.lines@.len() <= level + 1,
                self.lines@.subrange(0, n0) == init,
                forall|i: int| n0 <= i < self.lines@.len() ==> self.lines@[i] is None,
                self.handle == old(self).handle,
                self.prev_rows == old(self).prev_rows,
                self.recv == old(self).recv,
            decreases level + 1 - self.lines.len(),
        {
            self.lines.push(None);
            assert(self.lines@.subrange(0, n0) =~= init);
        }
        assert(self.lines@ =~= init + Seq::new((level + 1 - n0) as nat, |i: int| None::<String>));
    }

    /// Repaints: moves up over the rows of the previous frame, interleaves
    /// `log_data` if any, rewrites every present row, and records the row
    /// count as the next cursor-up baseline. The count it returns is exactly
    /// the number of present slots.
    fn redraw(&mut self, log_data: Option<Vec<u8>>) -> (rows: usize)
        ensures
            rows as nat == present_count(old(self).table()),
            final(self).table() == old(self).table(),
            final(self).last_drawn() == rows as nat,
            final(self).source() == old(self).source(),
            final(self).sink_view().written() == old(self).sink_view().written() + frame_bytes(
                old(self).table(),
                old(self).last_drawn(),
                log_data.deep_view(),
            ),
    {
        let (out, rows) = render_frame(&self.lines, self.prev_rows, &log_data);
        self.handle.write_all(&out);
        self.prev_rows = rows;
        rows
    }

    /// One steady-loop step: waits for a message; on one, applies it and
    /// repaints as its classification demands. Returns whether the channel
    /// is still open; once every sender has finished it returns false with
    /// nothing touched, and the listener never writes again.
    pub fn process_next(&mut self) -> (more: bool)
        ensures
            !more ==> *final(self) == *old(self),
            more ==> exists|m: MsgView|
                {
                    &&& #[trigger] apply_msg(old(self).table(), m) == final(self).table()
                    &&& final(self).sink_view().written() == old(self).sink_view().written()
                        + step_output(old(self).table(), old(self).last_drawn(), m)
                    &&& final(self).last_drawn() == step_rows(
                        old(self).table(),
                        old(self).last_drawn(),
                        m,
                    )
                },
            final(self).source() == old(self).source(),
    {
        let ghost t0: Table = self.table();
        let ghost prev0: nat = self.last_drawn();
        let ghost w0: Seq<u8> = self.sink_view().written();
        let msg = match recv_msg(&self.recv) {
            Some(msg) => msg,
            None => {
                return false;
            },
        };
        let ghost m: MsgView = msg@;
        let log_line = match self.parse_message(msg) {
            ParsedMessage::NoChanges => {
                proof {
                    assert(step_output(t0, prev0, m) == Seq::<u8>::empty());
                    assert(self.sink_view().written() =~= w0 + step_output(t0, prev0, m));
                    assert(apply_msg(t0, m) == self.table());
                }
                return true;
            },
            ParsedMessage::Changed { .. } => None,
            ParsedMessage::Log { data } => Some(data),
            ParsedMessage::Refresh => None,
        };
        self.redraw(log_line);
        proof {
            assert(apply_msg(t0, m) == self.table());
            assert(self.sink_view().written() == w0 + step_output(t0, prev0, m));
            assert(self.last_drawn() == step_rows(t0, prev0, m));
        }
        true
    }

    /// The warm-up drain: applies every already-queued message without
    /// repainting, writing only log payloads straight through, so that bulk
    /// creation at startup costs one repaint instead of many. Stops as soon
    /// as no message is ready.
    fn drain_ready(&mut self)
        ensures
            final(self).last_drawn() == old(self).last_drawn(),
            final(self).source() == old(self).source(),
            exists|msgs: Seq<MsgView>|
                {
                    &&& #[trigger] apply_all(old(self).table(), msgs) == final(self).table()
                    &&& final(self).sink_view().written() == old(self).sink_view().written()
                        + warm_output(msgs)
                },
    {
        let ghost t0: Table = self.table();
        let ghost prev0: nat = self.last_drawn();
        let ghost r0: Receiver<WriteMsg> = self.source();
        let ghost w0: Seq<u8> = self.sink_view().written();
        let ghost mut msgs: Seq<MsgView> = Seq::empty();
        proof {
            assert(apply_all(t0, msgs) == t0);
            assert(w0 + warm_output(msgs) =~= w0);
        }
        // The termination measure: no process enqueues anywhere near
        // usize::MAX messages, so the bound is never the reason to stop.
        let mut fuel: usize = usize::MAX;
        loop
            invariant
                apply_all(t0, msgs) == self.table(),
                self.last_drawn() == prev0,
                self.source() == r0,
                self.sink_view().written() == w0 + warm_output(msgs),
            decreases fuel,
        {
            if fuel == 0 {
                break;
            }
            fuel = fuel - 1;
            let msg = match try_recv_msg(&self.recv) {
                Some(msg) => msg,
                None => {
                    break;
                },
            };
            let ghost m: MsgView = msg@;
            let ghost sofar: Seq<MsgView> = msgs;
            match self.parse_message(msg) {
                ParsedMessage::Log { data } => {
                    self.handle.write_all(&data);
                },
                _ => {},
            }
            proof {
                msgs = sofar + seq![m];
                assert(msgs.drop_last() =~= sofar);
                assert(msgs.last() == m);
                assert(apply_all(t0, msgs) == self.table());
                assert(self.sink_view().written() =~= w0 + warm_output(msgs));
            }
        }
        proof {
            assert(apply_all(t0, msgs) == self.table());
            assert(self.sink_view().written() == w0 + warm_output(msgs));
        }
    }

    /// The warm-up: drains every already-queued message without repainting,
    /// writing only log payloads straight through, in order, then paints the
    /// one deferred initial frame — so bulk creation at startup costs one
    /// repaint instead of many.
    pub fn warm_up(&mut self)
        ensures
            final(self).source() == old(self).source(),
            final(self).last_drawn() == present_count(final(self).table()),
            exists|warm: Seq<MsgView>|
                {
                    &&& #[trigger] apply_all(old(self).table(), warm) == final(self).table()
                    &&& final(self).sink_view().written() == old(self).sink_view().written()
                        + warm_output(warm) + frame_bytes(
                        final(self).table(),
                        old(self).last_drawn(),
                        None,
                    )
                },
    {
        let ghost t0: Table = self.table();
        let ghost prev0: nat = self.last_drawn();
        let ghost w0: Seq<u8> = self.sink_view().written();
        self.drain_ready();
        let ghost warm: Seq<MsgView> = choose|msgs: Seq<MsgView>|
            {
                &&& #[trigger] apply_all(t0, msgs) == self.table()
                &&& self.sink_view().written() == w0 + warm_output(msgs)
            };
        self.redraw(None);
        proof {
            assert(apply_all(t0, warm) == self.table());
            assert(self.sink_view().written() == w0 + warm_output(warm) + frame_bytes(
                self.table(),
                prev0,
                None,
            ));
        }
    }

    /// The listener's whole life: warm up, then handle one message at a time
    /// until every handle and log target has finished, which is the normal,
    /// successful exit. Returns the sink, holding everything ever written:
    /// the warm-up's log payloads, the one deferred initial frame, then one
    /// repaint per processed message.
    pub fn listen(self) -> (sink: T)
        ensures
            exists|warm: Seq<MsgView>, steps: Seq<MsgView>|
                sink.written() == self.sink_view().written() + #[trigger] session_output(
                    self.table(),
                    self.last_drawn(),
                    warm,
                    steps,
                ),
    {
        let mut this = self;
        let ghost t0: Table = this.table();
        let ghost prev0: nat = this.last_drawn();
        let ghost w0: Seq<u8> = this.sink_view().written();
        this.warm_up();
        let ghost warm: Seq<MsgView> = choose|msgs: Seq<MsgView>|
            {
                &&& #[trigger] apply_all(t0, msgs) == this.table()
                &&& this.sink_view().written() == w0 + warm_output(msgs) + frame_bytes(
                    this.table(),
                    prev0,
                    None,
                )
            };
        let ghost t1: Table = this.table();
        let ghost p1: nat = this.last_drawn();
        let ghost w1: Seq<u8> = this.sink_view().written();
        let ghost mut steps: Seq<MsgView> = Seq::empty();
        // The termination measure: no process enqueues anywhere near
        // usize::MAX messages, so the bound is never the reason to stop.
        let mut fuel: usize = usize::MAX;
        loop
            invariant
                this.table() == apply_all(t1, steps),
                this.last_drawn() == rows_after(t1, p1, steps),
                this.sink_view().written() == w1 + run_output(t1, p1, steps),
            ensures
                this.sink_view().written() == w1 + run_output(t1, p1, steps),
            decreases fuel,
        {
            if fuel == 0 {
                break;
            }
            fuel = fuel - 1;
            let ghost before_t: Table = this.table();
            let ghost before_p: nat = this.last_drawn();
            let ghost before_w: Seq<u8> = this.sink_view().written();
            let ghost sofar: Seq<MsgView> = steps;
            if !this.process_next() {
                break;
            }
            proof {
                let m = choose|m: MsgView|
                    {
                        &&& #[trigger] apply_msg(before_t, m) == this.table()
                        &&& this.sink_view().written() == before_w + step_output(
                            before_t,
                            before_p,
                            m,
                        )
                        &&& this.last_drawn() == step_rows(before_t, before_p, m)
                    };
                steps = sofar + seq![m];
                assert(steps.drop_last() =~= sofar);
                assert(steps.last() == m);
                assert(this.sink_view().written() =~= w1 + run_output(t1, p1, steps));
            }
        }
        proof {
            assert(p1 == present_count(t1));
            assert(this.sink_view().written() =~= w0 + session_output(t0, prev0, warm, steps));
        }
        let MultiBarListener { recv: _, lines: _, prev_rows: _, handle } = this;
        handle
    }
}

} // verus!
