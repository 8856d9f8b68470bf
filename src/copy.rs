//! Progress of one attempt at copying a segment: how much to read next, where
//! the bytes go, and when the attempt must fail.

use crate::segment::Segment;
use vstd::prelude::*;

verus! {

/// Largest read of one step, in bytes.
pub const BUFFER_SIZE: usize = 1048576;

/// Why an attempt at a segment failed in the copy loop itself.
#[derive(Clone, Copy, Debug, PartialEq, Eq, Structural)]
pub enum CopyError {
    /// The source ended before the segment's end.
    UnexpectedEof,
    /// A write accepted no byte.
    WriteZero,
}

/// One attempt at copying `[start, end)`: `done` bytes are in place, at offsets
/// `[start, start + done)` of the destination, read from the same offsets of the
/// source.
#[derive(Clone, Copy, Debug)]
pub struct SegmentCopy {
    start: u64,
    end: u64,
    done: u64,
}

impl SegmentCopy {
    pub closed spec fn start_spec(&self) -> nat {
        self.start as nat
    }

    pub closed spec fn end_spec(&self) -> nat {
        self.end as nat
    }

    pub closed spec fn done_spec(&self) -> nat {
        self.done as nat
    }

    pub open spec fn wf(&self) -> bool {
        self.start_spec() + self.done_spec() <= self.end_spec()
    }

    /// Bytes of the segment that are not in place yet.
    pub open spec fn remaining_spec(&self) -> nat {
        (self.end_spec() - self.start_spec() - self.done_spec()) as nat
    }

    /// Length of the next read: the rest of the segment, at most one buffer.
    pub open spec fn next_read_spec(&self) -> nat {
        if self.remaining_spec() < BUFFER_SIZE {
            self.remaining_spec()
        } else {
            BUFFER_SIZE as nat
        }
    }

    /// A fresh attempt at `seg`, starting at its first byte.
    pub fn new(seg: &Segment) -> (r: SegmentCopy)
        requires
            seg.start <= seg.end,
        ensures
            r.wf(),
            r.start_spec() == seg.start,
            r.end_spec() == seg.end,
            r.done_spec() == 0,
    {
        SegmentCopy { start: seg.start, end: seg.end, done: 0 }
    }

    /// Offset, in source and destination alike, of the next byte to copy.
    pub fn position(&self) -> (r: u64)
        requires
            self.wf(),
        ensures
            r == self.start_spec() + self.done_spec(),
    {
        self.start + self.done
    }

    /// Bytes copied so far in this attempt.
    pub fn done(&self) -> (r: u64)
        ensures
            r == self.done_spec(),
    {
        self.done
    }

    /// Whether every byte of the segment is in place.
    pub fn is_complete(&self) -> (r: bool)
        requires
            self.wf(),
        ensures
            r == (self.remaining_spec() == 0),
    {
        self.done == self.end - self.start
    }

    /// Length to read next.
    pub fn next_read_len(&self) -> (r: usize)
        requires
            self.wf(),
        ensures
            r == self.next_read_spec(),
            r <= BUFFER_SIZE,
            !(self.remaining_spec() == 0) ==> r > 0,
    {
        let remaining = self.end - self.start - self.done;
        if remaining < BUFFER_SIZE as u64 {
            remaining as usize
        } else {
            BUFFER_SIZE
        }
    }

    /// Records a read of `n` bytes, after they were written in full at
    /// `position()`. A read of no byte before the end fails the attempt.
    pub fn record_read(&mut self, n: usize) -> (r: Result<(), CopyError>)
        requires
            old(self).wf(),
            old(self).remaining_spec() > 0,
            n <= old(self).next_read_spec(),
        ensures
            final(self).wf(),
            final(self).start_spec() == old(self).start_spec(),
            final(self).end_spec() == old(self).end_spec(),
            n == 0 ==> r == Err::<(), CopyError>(CopyError::UnexpectedEof) && final(self).done_spec()
                == old(self).done_spec(),
            n > 0 ==> r is Ok && final(self).done_spec() == old(self).done_spec() + n,
    {
        if n == 0 {
            Err(CopyError::UnexpectedEof)
        } else {
            self.done = self.done + n as u64;
            Ok(())
        }
    }

    /// Takes what a read from a source that may run past the segment handed
    /// over: the first `min(n, remaining)` bytes, which it returns.
    pub fn accept(&mut self, n: usize) -> (r: usize)
        requires
            old(self).wf(),
        ensures
            final(self).wf(),
            final(self).start_spec() == old(self).start_spec(),
            final(self).end_spec() == old(self).end_spec(),
            r == if n < old(self).remaining_spec() {
                n as nat
            } else {
                old(self).remaining_spec()
            },
            final(self).done_spec() == old(self).done_spec() + r,
    {
        let remaining = self.end - self.start - self.done;
        let take: u64 = if (n as u64) < remaining {
            n as u64
        } else {
            remaining
        };
        self.done = self.done + take;
        take as usize
    }
}

/// Writing out one buffer of `len` bytes, which may take several writes.
#[derive(Clone, Copy, Debug)]
pub struct Drain {
    len: usize,
    written: usize,
}

impl Drain {
    pub closed spec fn len_spec(&self) -> nat {
        self.len as nat
    }

    pub closed spec fn written_spec(&self) -> nat {
        self.written as nat
    }

    pub open spec fn wf(&self) -> bool {
        self.written_spec() <= self.len_spec()
    }

    /// Nothing of a buffer of `len` bytes written yet.
    pub fn new(len: usize) -> (r: Drain)
        ensures
            r.wf(),
            r.len_spec() == len,
            r.written_spec() == 0,
    {
        Drain { len, written: 0 }
    }

    /// Bytes of the buffer written so far: the next write starts there.
    pub fn written(&self) -> (r: usize)
        ensures
            r == self.written_spec(),
    {
        self.written
    }

    /// Whether the whole buffer is written.
    pub fn is_drained(&self) -> (r: bool)
        ensures
            r == (self.written_spec() == self.len_spec()),
    {
        self.written == self.len
    }

    /// Records a write that took `w` bytes of what was left. A write that
    /// takes nothing fails the attempt.
    pub fn record_write(&mut self, w: usize) -> (r: Result<(), CopyError>)
        requires
            old(self).wf(),
            w <= old(self).len_spec() - old(self).written_spec(),
        ensures
            final(self).wf(),
            final(self).len_spec() == old(self).len_spec(),
            w == 0 ==> r == Err::<(), CopyError>(CopyError::WriteZero) && final(self).written_spec()
                == old(self).written_spec(),
            w > 0 ==> r is Ok && final(self).written_spec() == old(self).written_spec() + w,
    {
        if w == 0 {
            Err(CopyError::WriteZero)
        } else {
            self.written = self.written + w;
            Ok(())
        }
    }
}

} // verus!
