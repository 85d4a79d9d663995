//! The replication tracker and its bounded work queue.
//!
//! The tracker drives replication attempts against the peer-to-peer
//! handle. It keeps a FIFO of project identifiers: fresh identifiers are
//! drained from the input channel to the tail before each attempt, the
//! head is dispatched, and a retryable outcome re-appends the identifier
//! at the tail so that other queued work interleaves with retries. The
//! surrounding channel is bounded: a producer that finds it full must
//! wait rather than grow it.

use vstd::prelude::*;
use vstd::seq_lib::group_to_multiset_ensures;
use crate::peer::PeerId;
use crate::urn::Urn;

verus! {

/// The outcome of one replication attempt on the peer-to-peer handle.
pub enum TrackOutcome {
    /// The project was fetched from the given peer.
    Fetched(PeerId),
    /// The project was already up to date.
    UpToDate,
    /// No peer had the project; worth retrying later.
    NotFound,
    /// The attempt timed out; worth retrying later.
    TimedOut,
    /// The handle failed; the tracker must stop.
    Failed,
}

/// Outcomes after which the identifier is re-queued for another attempt.
pub open spec fn retryable(o: TrackOutcome) -> bool {
    o is NotFound || o is TimedOut
}

/// The tracker's internal FIFO of project identifiers awaiting an
/// attempt.
pub struct Tracker {
    pub work: Vec<Urn>,
}

impl Tracker {
    /// A tracker starts with nothing queued.
    pub fn new() -> (r: Tracker)
        ensures
            r.work@.len() == 0,
    {
        Tracker { work: Vec::new() }
    }

    /// Drain one identifier from the input channel to the tail of the
    /// work queue.
    pub fn enqueue(&mut self, urn: Urn)
        ensures
            final(self).work@ == old(self).work@.push(urn),
    {
        self.work.push(urn);
    }

    /// Take the head of the work queue for dispatch, front first.
    pub fn take_next(&mut self) -> (r: Option<Urn>)
        ensures
            old(self).work@.len() == 0 ==> r is None && final(self).work@ == old(self).work@,
            old(self).work@.len() > 0 ==> r == Some(old(self).work@.first()) && final(self).work@
                == old(self).work@.drop_first(),
    {
        if self.work.len() == 0 {
            None
        } else {
            let urn = self.work.remove(0);
            proof {
                assert(self.work@ =~= old(self).work@.drop_first());
            }
            Some(urn)
        }
    }

    /// Settle a dispatched identifier with the outcome of its attempt:
    /// a retryable outcome re-appends it at the tail, a terminal one
    /// discards it. Returns whether the tracker should keep running.
    pub fn settle(&mut self, urn: Urn, outcome: &TrackOutcome) -> (proceed: bool)
        ensures
            retryable(*outcome) ==> final(self).work@ == old(self).work@.push(urn),
            !retryable(*outcome) ==> final(self).work@ == old(self).work@,
            proceed == !(*outcome is Failed),
    {
        match outcome {
            TrackOutcome::Fetched(_) => true,
            TrackOutcome::UpToDate => true,
            TrackOutcome::NotFound => {
                self.work.push(urn);
                true
            },
            TrackOutcome::TimedOut => {
                self.work.push(urn);
                true
            },
            TrackOutcome::Failed => false,
        }
    }
}

/// Law: a dispatch round loses no identifier. Taking the head of the
/// work queue and settling it with a retryable outcome leaves exactly
/// the same identifiers queued; a terminal outcome removes exactly the
/// settled identifier and nothing else.
pub proof fn lemma_round_conserves_ids(work: Seq<Urn>, outcome: TrackOutcome)
    requires
        work.len() > 0,
    ensures
        retryable(outcome) ==> work.drop_first().push(work.first()).to_multiset()
            == work.to_multiset(),
        !retryable(outcome) ==> work.drop_first().to_multiset() == work.to_multiset().remove(
            work.first(),
        ),
{
    broadcast use group_to_multiset_ensures;

    assert(work.drop_first() =~= work.remove(0));
    assert(work.remove(0).to_multiset() =~= work.to_multiset().remove(work[0]));
    if retryable(outcome) {
        assert(work.drop_first().push(work.first()).to_multiset() =~= work.drop_first()
            .to_multiset().insert(work.first()));
        assert(work.to_multiset().contains(work[0])) by {
            assert(work.contains(work[0]));
        }
        assert(work.to_multiset().remove(work[0]).insert(work[0]) =~= work.to_multiset());
    }
}

/// Capacity of the bounded work channel between the anchor pipeline and
/// the tracker.
pub const WORK_QUEUE_CAPACITY: usize = 256;

/// A bounded FIFO of project identifiers: the verified model of the work
/// channel. A sender that finds it full gets its identifier back and
/// must wait; the queue itself never exceeds its capacity.
pub struct WorkQueue {
    pub items: Vec<Urn>,
}

impl WorkQueue {
    /// The queue never holds more than its capacity.
    pub open spec fn wf(&self) -> bool {
        self.items@.len() <= WORK_QUEUE_CAPACITY
    }

    /// An empty queue.
    pub fn new() -> (r: WorkQueue)
        ensures
            r.items@.len() == 0,
            r.wf(),
    {
        WorkQueue { items: Vec::new() }
    }

    /// Number of identifiers queued.
    pub fn len(&self) -> (r: usize)
        ensures
            r == self.items@.len(),
    {
        self.items.len()
    }

    /// Append an identifier at the tail, unless the queue is full; a
    /// full queue hands the identifier back for the producer to retry.
    pub fn try_send(&mut self, urn: Urn) -> (r: Result<(), Urn>)
        requires
            old(self).wf(),
        ensures
            final(self).wf(),
            old(self).items@.len() < WORK_QUEUE_CAPACITY ==> r is Ok
                && final(self).items@ == old(self).items@.push(urn),
            old(self).items@.len() == WORK_QUEUE_CAPACITY ==> r == Err::<(), Urn>(urn)
                && final(self).items@ == old(self).items@,
    {
        if self.items.len() < WORK_QUEUE_CAPACITY {
            self.items.push(urn);
            Ok(())
        } else {
            Err(urn)
        }
    }

    /// Take the identifier at the head, front first.
    pub fn recv(&mut self) -> (r: Option<Urn>)
        requires
            old(self).wf(),
        ensures
            final(self).wf(),
            old(self).items@.len() == 0 ==> r is None && final(self).items@ == old(self).items@,
            old(self).items@.len() > 0 ==> r == Some(old(self).items@.first())
                && final(self).items@ == old(self).items@.drop_first(),
    {
        if self.items.len() == 0 {
            None
        } else {
            let urn = self.items.remove(0);
            proof {
                assert(self.items@ =~= old(self).items@.drop_first());
            }
            Some(urn)
        }
    }
}

} // verus!
