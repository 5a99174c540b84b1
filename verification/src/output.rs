//! The buffer the output monitor fills.
//!
//! A background monitor drains the session's console and appends each
//! non-blank line, trimmed, to this buffer in arrival order.  The outer layer
//! reads snapshots of the buffer and may clear it at any time, with or
//! without an active session.

use vstd::prelude::*;
use vstd::slice::slice_to_vec;
use crate::text::{trim_bytes, trim_line};

verus! {

/// The ordered, clearable sequence of console lines kept by the monitor.
pub struct OutputBuffer {
    lines: Vec<Vec<u8>>,
}

impl View for OutputBuffer {
    type V = Seq<Seq<u8>>;

    closed spec fn view(&self) -> Seq<Seq<u8>> {
        self.lines.deep_view()
    }
}

/// What recording one raw line does to the buffer: a line that is blank after
/// trimming is dropped; any other line is appended, trimmed, at the end.
pub open spec fn spec_record(buf: Seq<Seq<u8>>, line: Seq<u8>) -> Seq<Seq<u8>> {
    if trim_bytes(line).len() == 0 {
        buf
    } else {
        buf.push(trim_bytes(line))
    }
}

impl OutputBuffer {
    /// An empty buffer.
    pub fn new() -> (r: Self)
        ensures
            r@ == Seq::<Seq<u8>>::empty(),
    {
        let r = OutputBuffer { lines: Vec::new() };
        proof {
            assert(r@ =~= Seq::<Seq<u8>>::empty());
        }
        r
    }

    /// Records one raw line as the monitor saw it: trimmed, and only if
    /// something is left after trimming.
    pub fn record_line(&mut self, line: &[u8])
        ensures
            final(self)@ == spec_record(old(self)@, line@),
    {
        let trimmed = trim_line(line);
        if trimmed.len() > 0 {
            self.lines.push(trimmed);
            proof {
                assert(self.lines.deep_view() =~~= old(self).lines.deep_view().push(
                    trim_bytes(line@),
                ));
            }
        }
    }

    /// A copy of the buffered lines, in arrival order.
    pub fn snapshot(&self) -> (r: Vec<Vec<u8>>)
        ensures
            r.deep_view() == self@,
    {
        let mut r: Vec<Vec<u8>> = Vec::new();
        let mut i: usize = 0;
        while i < self.lines.len()
            invariant
                i <= self.lines.len(),
                r@.len() == i,
                forall|j: int| 0 <= j < i ==> r@[j]@ == self.lines@[j]@,
            decreases self.lines.len() - i,
        {
            r.push(slice_to_vec(self.lines[i].as_slice()));
            i += 1;
        }
        proof {
            assert forall|j: int| 0 <= j < r@.len() implies r.deep_view()[j] =~~= self.lines.deep_view()[j] by {
                assert(r@[j]@ == self.lines@[j]@);
            }
            assert(r.deep_view() =~~= self.lines.deep_view());
        }
        r
    }

    /// Empties the buffer.
    pub fn clear(&mut self)
        ensures
            final(self)@ == Seq::<Seq<u8>>::empty(),
    {
        self.lines.clear();
        proof {
            assert(self@ =~= Seq::<Seq<u8>>::empty());
        }
    }

}

/// Lines survive in arrival order: recording two non-blank lines appends
/// their trimmed forms at the end, first one first.
pub proof fn lemma_record_keeps_order(buf: Seq<Seq<u8>>, l1: Seq<u8>, l2: Seq<u8>)
    requires
        trim_bytes(l1).len() > 0,
        trim_bytes(l2).len() > 0,
    ensures
        spec_record(spec_record(buf, l1), l2) == buf + seq![trim_bytes(l1), trim_bytes(l2)],
{
    assert(spec_record(spec_record(buf, l1), l2) =~= buf + seq![trim_bytes(l1), trim_bytes(l2)]);
}

} // verus!
