//! The truncating message buffer used when the process stops abnormally.
//!
//! When a fault is reported to the kernel's break call, the message is first
//! rendered into a fixed-size buffer. The cursor below owns such a buffer and
//! appends byte runs to it, silently truncating once the buffer is full — a
//! late fragment of a panic message must never become a second fault.

use vstd::prelude::*;

verus! {

/// Smallest of two lengths.
pub open spec fn spec_min(a: int, b: int) -> int {
    if a <= b {
        a
    } else {
        b
    }
}

/// A write position inside a fixed-size byte buffer.
pub struct Cursor {
    /// The backing buffer; its length never changes.
    pub buf: Vec<u8>,
    /// Number of bytes written so far.
    pub pos: usize,
}

impl Cursor {
    /// The position never runs past the buffer.
    pub open spec fn wf(self) -> bool {
        self.pos <= self.buf@.len()
    }

    /// Wrap a buffer, ready to write from its start.
    pub fn new(buf: Vec<u8>) -> (c: Cursor)
        ensures
            c.wf(),
            c.buf@ == buf@,
            c.pos == 0,
    {
        Cursor { buf, pos: 0 }
    }

    /// The number of bytes written so far.
    pub fn position(&self) -> (p: usize)
        ensures
            p == self.pos,
    {
        self.pos
    }

    /// Append a run of bytes, keeping whatever fits in the remaining space
    /// and dropping the rest; never fails.
    pub fn write_bytes(&mut self, s: &[u8]) -> (written: usize)
        requires
            old(self).wf(),
        ensures
            final(self).wf(),
            written == spec_min(s@.len() as int, old(self).buf@.len() - old(self).pos),
            final(self).pos == old(self).pos + written,
            final(self).buf@.len() == old(self).buf@.len(),
            forall|i: int|
                0 <= i < old(self).pos ==> final(self).buf@[i] == old(self).buf@[i],
            forall|i: int|
                old(self).pos <= i < old(self).pos + written ==> final(self).buf@[i] == s@[i - old(
                    self,
                ).pos],
            forall|i: int|
                old(self).pos + written <= i < old(self).buf@.len() ==> final(self).buf@[i] == old(
                    self,
                ).buf@[i],
    {
        let remaining = self.buf.len() - self.pos;
        let to_write = if s.len() < remaining {
            s.len()
        } else {
            remaining
        };
        let mut k: usize = 0;
        while k < to_write
            invariant
                0 <= k <= to_write,
                self.pos == old(self).pos,
                to_write <= s@.len(),
                old(self).pos + to_write <= self.buf@.len(),
                self.buf@.len() <= usize::MAX,
                self.buf@.len() == old(self).buf@.len(),
                forall|i: int| 0 <= i < old(self).pos ==> self.buf@[i] == old(self).buf@[i],
                forall|i: int|
                    old(self).pos <= i < old(self).pos + k ==> self.buf@[i] == s@[i - old(
                        self,
                    ).pos],
                forall|i: int|
                    old(self).pos + k <= i < self.buf@.len() ==> self.buf@[i] == old(self).buf@[i],
            decreases to_write - k,
        {
            let b = s[k];
            self.buf.set(self.pos + k, b);
            k = k + 1;
        }
        self.pos = self.pos + to_write;
        to_write
    }
}

} // verus!
