//! The caller-supplied output region a read call fills.

use vstd::prelude::*;
use vstd::pervasive::VecAdditionalExecFns;

verus! {

/// A byte region with a tracked write window.  `data` is the whole backing
/// region; writes land at `pos` and may continue up to (not including)
/// `limit`.  The window `[pos, limit)` models the unfilled sub-range of a
/// larger target that a read-exact style combinator presents on each call;
/// bytes outside the window are never touched.
pub struct OutputBuffer {
    data: Vec<u8>,
    pos: usize,
    limit: usize,
}

impl OutputBuffer {
    /// The whole backing region.
    pub closed spec fn data_spec(self) -> Seq<u8> {
        self.data@
    }

    /// Next position a write lands at.
    pub closed spec fn pos_spec(self) -> nat {
        self.pos as nat
    }

    /// One past the last writable position.
    pub closed spec fn limit_spec(self) -> nat {
        self.limit as nat
    }

    /// The write window lies inside the backing region.
    pub open spec fn wf(self) -> bool {
        self.pos_spec() <= self.limit_spec() <= self.data_spec().len()
    }

    /// How many more bytes this buffer accepts.
    pub open spec fn remaining_spec(self) -> nat
        recommends
            self.wf(),
    {
        (self.limit_spec() - self.pos_spec()) as nat
    }

    /// A buffer over `data` whose write window is `[start, end)`.
    pub fn new(data: Vec<u8>, start: usize, end: usize) -> (r: OutputBuffer)
        requires
            start <= end <= data@.len(),
        ensures
            r.wf(),
            r.data_spec() == data@,
            r.pos_spec() == start,
            r.limit_spec() == end,
    {
        OutputBuffer { data, pos: start, limit: end }
    }

    /// Remaining capacity of this call's window.
    pub fn remaining(&self) -> (r: usize)
        requires
            self.wf(),
        ensures
            r == self.remaining_spec(),
    {
        self.limit - self.pos
    }

    /// Current write position.
    pub fn position(&self) -> (r: usize)
        ensures
            r == self.pos_spec(),
    {
        self.pos
    }

    /// Copy all of `src` into the buffer at the current write position and
    /// advance the position past it.  Bytes outside the written range keep
    /// their previous values.
    pub fn put_slice(&mut self, src: &Vec<u8>)
        requires
            old(self).wf(),
            src@.len() <= old(self).remaining_spec(),
        ensures
            final(self).wf(),
            final(self).limit_spec() == old(self).limit_spec(),
            final(self).pos_spec() == old(self).pos_spec() + src@.len(),
            final(self).data_spec().len() == old(self).data_spec().len(),
            forall|i: int|
                old(self).pos_spec() <= i < old(self).pos_spec() + src@.len()
                    ==> final(self).data_spec()[i] == src@[i - old(self).pos_spec()],
            forall|i: int|
                0 <= i < old(self).data_spec().len() && !(old(self).pos_spec() <= i
                    < old(self).pos_spec() + src@.len()) ==> final(self).data_spec()[i]
                    == old(self).data_spec()[i],
    {
        let n = src.len();
        let mut i: usize = 0;
        while i < n
            invariant
                n == src@.len(),
                i <= n,
                self.wf(),
                self.limit_spec() == old(self).limit_spec(),
                self.data_spec().len() == old(self).data_spec().len(),
                self.pos_spec() == old(self).pos_spec(),
                old(self).pos_spec() + n <= self.limit_spec(),
                forall|j: int|
                    self.pos_spec() <= j < self.pos_spec() + i ==> self.data_spec()[j] == src@[j
                        - self.pos_spec()],
                forall|j: int|
                    0 <= j < self.data_spec().len() && !(self.pos_spec() <= j < self.pos_spec()
                        + i) ==> self.data_spec()[j] == old(self).data_spec()[j],
            decreases n - i,
        {
            self.data.set(self.pos + i, src[i]);
            i += 1;
        }
        self.pos = self.pos + n;
    }

    /// Give the backing region back, for example to inspect what a sequence
    /// of reads produced or to open a new window over it.
    pub fn into_inner(self) -> (r: Vec<u8>)
        ensures
            r@ == self.data_spec(),
    {
        self.data
    }
}

} // verus!
