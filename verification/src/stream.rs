//! The pull-based byte source that feeds compressed data to the engine.
//!
//! A [`Stream`] owns one finite in-memory byte source and hands out bytes
//! on demand, up to the requested count per pull; an empty answer to a
//! nonzero request signals end-of-data, which the engine treats as
//! end-of-stream, never as an error. A stream serves exactly one decode
//! session: the host program moves it into the session and releases it
//! when the session ends.

use vstd::prelude::*;

verus! {

/// A finite byte source with a read position. Bytes before the position
/// have been consumed; a pull returns the next bytes in order.
pub struct Stream {
    data: Vec<u8>,
    pos: usize,
}

impl Stream {
    /// The backing bytes, in full.
    pub closed spec fn spec_data(&self) -> Seq<u8> {
        self.data@
    }

    /// How many bytes have been consumed so far.
    pub closed spec fn spec_pos(&self) -> int {
        self.pos as int
    }

    /// The read position never passes the end of the source.
    pub open spec fn wf(&self) -> bool {
        0 <= self.spec_pos() <= self.spec_data().len()
    }

    /// Bytes not yet consumed.
    pub open spec fn spec_remaining(&self) -> int {
        self.spec_data().len() - self.spec_pos()
    }

    /// Wrap a byte buffer as a fresh source, positioned at its start.
    pub fn from_bytes(buf: Vec<u8>) -> (s: Stream)
        ensures
            s.wf(),
            s.spec_data() == buf@,
            s.spec_pos() == 0,
    {
        Stream { data: buf, pos: 0 }
    }

    /// Answer one pull of the engine: up to `want` bytes, in source order,
    /// from the current position; the position advances by what was
    /// produced. The answer is empty exactly when nothing was requested or
    /// the source is exhausted.
    pub fn pull(&mut self, want: usize) -> (out: Vec<u8>)
        requires
            old(self).wf(),
        ensures
            final(self).wf(),
            final(self).spec_data() == old(self).spec_data(),
            out@.len() == vstd::math::min(want as int, old(self).spec_remaining()),
            out@ == old(self).spec_data().subrange(
                old(self).spec_pos(),
                old(self).spec_pos() + out@.len(),
            ),
            final(self).spec_pos() == old(self).spec_pos() + out@.len(),
            (out@.len() == 0 <==> want == 0 || old(self).spec_remaining() == 0),
    {
        let avail = self.data.len() - self.pos;
        let n = if want < avail {
            want
        } else {
            avail
        };
        let mut out: Vec<u8> = Vec::new();
        let mut i: usize = 0;
        while i < n
            invariant
                i <= n,
                self.pos + n <= self.data.len(),
                out@.len() == i,
                out@ == self.data@.subrange(self.pos as int, self.pos + i),
            decreases n - i,
        {
            let b = self.data[self.pos + i];
            out.push(b);
            proof {
                assert(out@ =~= self.data@.subrange(self.pos as int, self.pos + i + 1));
            }
            i = i + 1;
        }
        self.pos = self.pos + n;
        out
    }

    /// How many bytes are still unread.
    pub fn remaining(&self) -> (n: usize)
        requires
            self.wf(),
        ensures
            n == self.spec_remaining(),
    {
        self.data.len() - self.pos
    }
}

} // verus!
