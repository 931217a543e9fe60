//! The data source and its suspendable produce operation.

use vstd::prelude::*;
use crate::poll::Poll;

verus! {

/// Byte value the source writes into every position of every chunk it
/// produces.
pub const FILL_BYTE: u8 = 1;

/// The chunk the source delivers for a request of `size` bytes: exactly
/// `size` bytes, every one of them [`FILL_BYTE`].  The output is a function
/// of the requested size alone, so repeated requests are deterministic.
pub open spec fn produced_bytes(size: nat) -> Seq<u8> {
    Seq::new(size, |i: int| FILL_BYTE)
}

/// A data source that produces byte chunks on demand.  It holds whatever
/// state a real producer would need; the present producer needs none beyond
/// its identity.
///
/// Exclusivity discipline: at most one [`crate::reader::FancyReader`] may
/// work against a `Fancy` at a time.  This is structural: `Fancy::reader`
/// consumes the source by value, the adapter holds it in a private field, and
/// the only way to get it back is `FancyReader::release`, which consumes the
/// adapter.  While an adapter exists, no other path can reach the source.
pub struct Fancy {}

/// An in-flight produce operation, owned by the adapter that started it.
/// It suspends exactly once — modelling genuine asynchronous latency —
/// before completing with the requested chunk.
pub struct PendingOperation {
    /// Number of bytes this operation was asked for.
    size: usize,
    /// Whether the operation has already taken its one suspension.
    suspended: bool,
}

impl Fancy {
    /// A fresh data source.
    pub fn new() -> (r: Fancy) {
        Fancy {}
    }

    /// Start producing exactly `size` bytes.  The returned operation has not
    /// yet run at all: its first step suspends, and only a later step
    /// completes it.
    pub fn produce(&mut self, size: usize) -> (op: PendingOperation)
        ensures
            *final(self) == *old(self),
            op.size_spec() == size,
            !op.has_suspended(),
    {
        PendingOperation { size, suspended: false }
    }

    /// The fill-value chunk generator: builds the chunk of exactly `size`
    /// bytes that a completed produce operation hands back.
    pub fn fill_chunk(&mut self, size: usize) -> (r: Vec<u8>)
        ensures
            *final(self) == *old(self),
            r@ == produced_bytes(size as nat),
    {
        let mut v: Vec<u8> = Vec::new();
        let mut i: usize = 0;
        while i < size
            invariant
                i <= size,
                v@.len() == i,
                forall|j: int| 0 <= j < i ==> v@[j] == FILL_BYTE,
            decreases size - i,
        {
            v.push(FILL_BYTE);
            i += 1;
        }
        proof {
            assert(v@ =~= produced_bytes(size as nat));
        }
        v
    }
}

impl PendingOperation {
    /// Number of bytes the operation will deliver on completion.
    pub closed spec fn size_spec(self) -> nat {
        self.size as nat
    }

    /// Whether the operation has already suspended once; if so, its next
    /// step completes.
    pub closed spec fn has_suspended(self) -> bool {
        self.suspended
    }

    /// Number of bytes the operation was asked for.
    pub fn size(&self) -> (r: usize)
        ensures
            r == self.size_spec(),
    {
        self.size
    }

    /// Advance the operation one step against its owning source.  The first
    /// step always suspends — reporting [`Poll::Pending`] after arranging to
    /// be resumed — and every later step completes with exactly the
    /// requested chunk.
    pub fn step(&mut self, source: &mut Fancy) -> (r: Poll<Vec<u8>>)
        ensures
            *final(source) == *old(source),
            final(self).size_spec() == old(self).size_spec(),
            final(self).has_suspended(),
            !old(self).has_suspended() ==> r is Pending,
            old(self).has_suspended() ==> (r matches Poll::Ready(v)
                && v@ == produced_bytes(old(self).size_spec())),
    {
        if !self.suspended {
            self.suspended = true;
            Poll::Pending
        } else {
            Poll::Ready(source.fill_chunk(self.size))
        }
    }
}

} // verus!
