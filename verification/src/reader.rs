//! The poll-based reader adapter over a data source.

use vstd::prelude::*;
use crate::buffer::OutputBuffer;
use crate::poll::{Poll, ReadError};
use crate::source::{produced_bytes, Fancy, PendingOperation, FILL_BYTE};

verus! {

/// The chunks a run of completed sub-reads delivers, one per requested
/// size.  [`FancyReader::poll_read`]'s contract ties every completed
/// sub-read of requested size `n` to exactly `produced_bytes(n)`, so the
/// output of a whole run is this function of its request sizes alone — it
/// depends neither on the adapter instance nor on the source's history.
pub open spec fn delivered_for(sizes: Seq<nat>) -> Seq<Seq<u8>> {
    sizes.map_values(|n: nat| produced_bytes(n))
}

/// Each independent sub-read in a run delivers the source's deterministic
/// output for its own requested size: chunk `k` is `produced_bytes(sizes[k])`,
/// of length exactly `sizes[k]`, with the fill byte at every offset.
pub proof fn lemma_each_subread_exact(sizes: Seq<nat>, k: int)
    requires
        0 <= k < sizes.len(),
    ensures
        delivered_for(sizes)[k] == produced_bytes(sizes[k]),
        delivered_for(sizes)[k].len() == sizes[k],
        forall|i: int| 0 <= i < sizes[k] ==> delivered_for(sizes)[k][i] == FILL_BYTE,
{
}

/// Idempotent re-derivation: driving adapters with identical request
/// sequences yields byte-identical results, whichever adapter instances are
/// used and in whichever non-overlapping lifetimes they are created —
/// `delivered_for` mentions nothing but the sizes.
pub proof fn lemma_idempotent_rederivation(sizes1: Seq<nat>, sizes2: Seq<nat>)
    requires
        sizes1 == sizes2,
    ensures
        delivered_for(sizes1) == delivered_for(sizes2),
{
}

/// Poll-based reader over a [`Fancy`] data source.
///
/// The adapter holds the source exclusively for its whole lifetime — it is
/// handed over by value in [`Fancy::reader`] and comes back only through
/// [`FancyReader::release`] — and owns at most one in-flight produce
/// operation at a time.  It cycles between two states: *idle* (no pending
/// operation) and *awaiting* (exactly one pending operation in flight).
pub struct FancyReader {
    fancy: Fancy,
    pending: Option<PendingOperation>,
}

impl Fancy {
    /// Hand this source over to a new reader adapter.  Taking the source by
    /// value is what makes the exclusivity structural: while the adapter
    /// exists, no other path can call into the source.
    pub fn reader(self) -> (r: FancyReader)
        ensures
            r.wf(),
            r.is_idle(),
            r.source_spec() == self,
    {
        FancyReader { fancy: self, pending: None }
    }
}

impl FancyReader {
    /// The source this adapter holds exclusively.
    pub closed spec fn source_spec(self) -> Fancy {
        self.fancy
    }

    /// No produce operation is in flight.
    pub closed spec fn is_idle(self) -> bool {
        self.pending is None
    }

    /// Exactly one produce operation is in flight.
    pub open spec fn is_awaiting(self) -> bool {
        !self.is_idle()
    }

    /// Size of the in-flight operation's request.
    pub closed spec fn pending_size(self) -> nat
        recommends
            self.is_awaiting(),
    {
        self.pending->0.size_spec()
    }

    /// How many produce operations the adapter holds.
    pub open spec fn pending_count(self) -> nat {
        if self.is_idle() {
            0
        } else {
            1
        }
    }

    /// Every operation the adapter retains across calls has already taken
    /// its suspension, so the next poll completes it.  Holds of every
    /// adapter the library hands out.
    pub closed spec fn wf(self) -> bool {
        self.pending matches Some(op) ==> op.has_suspended()
    }

    /// An adapter never holds more than one pending operation.
    pub proof fn lemma_at_most_one_pending(self)
        ensures
            self.pending_count() <= 1,
    {
    }

    /// Report the in-flight request, if any: `None` while idle, and the
    /// requested size while awaiting.
    pub fn pending_request(&self) -> (r: Option<usize>)
        ensures
            self.is_idle() ==> r is None,
            self.is_awaiting() ==> (r matches Some(n) && n == self.pending_size()),
    {
        match &self.pending {
            None => None,
            Some(op) => Some(op.size()),
        }
    }

    /// One poll-based read step, driven by the scheduler or by a read-exact
    /// style combinator.
    ///
    /// While idle, the adapter asks the source for exactly this call's
    /// remaining capacity — never more, never an aggregate across calls —
    /// and immediately advances the new operation, whose first step always
    /// suspends, so the call reports [`Poll::Pending`] and leaves the buffer
    /// untouched.  While awaiting, the retained operation (never a fresh
    /// one) completes: exactly the requested chunk is copied at the current
    /// write position, the operation is discarded, and the call reports
    /// ready with success.  The producer is infallible, so no call returns a
    /// [`ReadError`].
    pub fn poll_read(&mut self, buf: &mut OutputBuffer) -> (r: Poll<Result<(), ReadError>>)
        requires
            old(self).wf(),
            old(buf).wf(),
            old(self).is_awaiting() ==> old(self).pending_size() <= old(buf).remaining_spec(),
        ensures
            final(self).wf(),
            final(buf).wf(),
            final(self).source_spec() == old(self).source_spec(),
            final(buf).limit_spec() == old(buf).limit_spec(),
            final(buf).data_spec().len() == old(buf).data_spec().len(),
            old(self).is_idle() ==> (r is Pending && final(self).is_awaiting()
                && final(self).pending_size() == old(buf).remaining_spec()
                && *final(buf) == *old(buf)),
            old(self).is_awaiting() ==> ((r matches Poll::Ready(res) && res is Ok)
                && final(self).is_idle()
                && final(buf).pos_spec() == old(buf).pos_spec() + old(self).pending_size()
                && (forall|i: int|
                old(buf).pos_spec() <= i < old(buf).pos_spec() + old(self).pending_size()
                    ==> final(buf).data_spec()[i] == produced_bytes(old(self).pending_size())[i
                    - old(buf).pos_spec()])
                && (forall|i: int|
                0 <= i < old(buf).data_spec().len() && !(old(buf).pos_spec() <= i
                    < old(buf).pos_spec() + old(self).pending_size())
                    ==> final(buf).data_spec()[i] == old(buf).data_spec()[i])),
    {
        if self.pending.is_none() {
            let n = buf.remaining();
            let op = self.fancy.produce(n);
            self.pending = Some(op);
        }
        let mut op = self.pending.take().unwrap();
        match op.step(&mut self.fancy) {
            Poll::Ready(chunk) => {
                buf.put_slice(&chunk);
                Poll::Ready(Ok(()))
            },
            Poll::Pending => {
                self.pending = Some(op);
                Poll::Pending
            },
        }
    }

    /// Discard the adapter — in any state, including mid-await — dropping
    /// any pending operation and giving the source back for reuse.
    pub fn release(self) -> (r: Fancy)
        ensures
            r == self.source_spec(),
    {
        self.fancy
    }
}

} // verus!
