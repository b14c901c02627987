//! The event listener: a checkpointed poll loop that delivers events to the
//! read-model projection strictly in global log order, one at a time. The
//! checkpoint advances only past a handled event, so a restart resumes exactly
//! after the last handled position, without gaps; the handlers tolerate
//! re-delivery, so resuming at an older durable checkpoint reprocesses
//! benignly.

use vstd::prelude::*;

use crate::domain::EventModel;
use crate::read_model::{spec_handle, ReadModelProjection, ReadModelTables};
use crate::store::EventLog;

verus! {

/// The tables after delivering a sequence of events, in order.
pub open spec fn spec_project(t: ReadModelTables, events: Seq<EventModel>) -> ReadModelTables
    decreases events.len(),
{
    if events.len() == 0 {
        t
    } else {
        spec_handle(spec_project(t, events.drop_last()), events.last())
    }
}

/// Delivering a concatenation is delivering its parts in turn: a listener that
/// resumes from a checkpoint computes the same tables as one that never
/// stopped.
pub proof fn lemma_project_concat(t: ReadModelTables, a: Seq<EventModel>, b: Seq<EventModel>)
    ensures
        spec_project(t, a + b) == spec_project(spec_project(t, a), b),
    decreases b.len(),
{
    if b.len() == 0 {
        assert(a + b =~= a);
    } else {
        assert((a + b).drop_last() =~= a + b.drop_last());
        assert((a + b).last() == b.last());
        lemma_project_concat(t, a, b.drop_last());
    }
}

/// The long-running subscriber: the projection together with the position of
/// the last event it has fully processed.
#[derive(Debug)]
pub struct Listener {
    pub checkpoint: u64,
    pub projection: ReadModelProjection,
}

impl Listener {
    /// The listener's tables keep their keys unique.
    pub open spec fn inv(&self) -> bool {
        self.projection.inv()
    }

    /// A listener starting from the given checkpoint, as a restart does after
    /// reloading the durable position.
    pub fn new(checkpoint: u64, projection: ReadModelProjection) -> (r: Listener)
        requires
            projection.inv(),
        ensures
            r.inv(),
            r.checkpoint == checkpoint,
            r.projection == projection,
    {
        Listener { checkpoint, projection }
    }

    /// One poll cycle: delivers every event past the checkpoint to the
    /// handlers, in log order, advancing the checkpoint after each one; when
    /// the cycle ends the listener has caught up with the log.
    pub fn poll(&mut self, log: &EventLog)
        requires
            old(self).inv(),
            old(self).checkpoint <= log@.len(),
        ensures
            final(self).inv(),
            final(self).checkpoint == log@.len(),
            final(self).projection@ == spec_project(
                old(self).projection@,
                log@.skip(old(self).checkpoint as int),
            ),
    {
        let ghost t0 = self.projection@;
        let ghost c0 = self.checkpoint as int;
        proof {
            assert(log@.len() == log.events@.len());
        }
        let end = log.events.len();
        proof {
            assert(self.checkpoint <= end);
        }
        let mut i: usize = self.checkpoint as usize;
        while i < log.events.len()
            invariant
                0 <= c0 <= i <= log.events.len(),
                log@.len() == log.events@.len(),
                self.inv(),
                self.checkpoint == i,
                self.projection@ == spec_project(t0, log@.subrange(c0, i as int)),
            decreases log.events.len() - i,
        {
            self.projection.handle(&log.events[i]);
            self.checkpoint = i as u64 + 1;
            proof {
                assert(log@.subrange(c0, i as int + 1).drop_last() =~= log@.subrange(
                    c0,
                    i as int,
                ));
                assert(log@.subrange(c0, i as int + 1).last() == log@[i as int]);
                assert(log@[i as int] == log.events@[i as int]@);
            }
            i += 1;
        }
        proof {
            assert(log@.subrange(c0, log@.len() as int) =~= log@.skip(c0));
        }
    }
}

} // verus!
