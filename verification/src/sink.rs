//! The byte sink a listener repaints into. The terminal coordinator is
//! generic over it, so callers can aim the frames at standard output, at
//! standard error, or at an in-memory recorder.

use vstd::prelude::*;

verus! {

/// A byte-oriented destination for rendered frames. `written` is the whole
/// history of bytes the sink has accepted; a write appends to it.
pub trait Sink {
    spec fn written(&self) -> Seq<u8>;

    fn write_all(&mut self, data: &Vec<u8>)
        ensures
            final(self).written() == old(self).written() + data@,
    ;
}

/// A recording sink: keeps every byte it is handed, for tests and for
/// callers that want to inspect frames.
pub struct MemSink {
    data: Vec<u8>,
}

impl MemSink {
    /// An empty recorder.
    pub fn new() -> (s: MemSink)
        ensures
            s.written() == Seq::<u8>::empty(),
    {
        let s = MemSink { data: Vec::new() };
        proof {
            assert(s.written() =~= Seq::<u8>::empty());
        }
        s
    }

    /// Everything written so far.
    pub fn bytes(&self) -> (r: &Vec<u8>)
        ensures
            r@ == self.written(),
    {
        &self.data
    }

    /// Hands out everything written so far and forgets it, so a driver that
    /// relays frames elsewhere keeps the recorder small.
    pub fn take_bytes(&mut self) -> (r: Vec<u8>)
        ensures
            r@ == old(self).written(),
            final(self).written() == Seq::<u8>::empty(),
    {
        let mut out: Vec<u8> = Vec::new();
        std::mem::swap(&mut self.data, &mut out);
        out
    }
}

impl Sink for MemSink {
    closed spec fn written(&self) -> Seq<u8> {
        self.data@
    }

    fn write_all(&mut self, data: &Vec<u8>) {
        crate::render::append_bytes(&mut self.data, data);
    }
}

} // verus!
