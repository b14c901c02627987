//! The event log, the state hydrator and the optimistic-concurrency writer.
//!
//! The log is the single source of truth: an append-only, globally ordered
//! sequence of events. The position of an event is its one-based index; the
//! version of a stream is the position of the last event the stream's query
//! selects, or zero when the stream is empty. Hydration replays the selected
//! events in log order through a pure fold step. An append succeeds only when
//! the stream's version still equals the version observed at hydration time.

use vstd::prelude::*;

use crate::domain::{events_view, DomainEvent, Error, EventModel};
use crate::query::{query_matches, StreamQuery, StreamQueryModel};

verus! {

broadcast use vstd::seq::Seq::lemma_push_map_commute, vstd::seq::Seq::lemma_map_take_succ;

/// A state that can be hydrated from the event log: it exposes the query that
/// selects its events and a pure fold step over them.
pub trait StateQuery: Sized + View {
    /// The internal invariant of the state.
    spec fn inv(&self) -> bool;

    /// The model of the query that selects this state's events.
    spec fn spec_query(&self) -> StreamQueryModel;

    /// The fold step at the model level: the state after one event.
    spec fn step(v: Self::V, e: EventModel) -> Self::V;

    /// The query that selects this state's events.
    fn query(&self) -> (q: StreamQuery)
        requires
            self.inv(),
        ensures
            q@ == self.spec_query(),
    ;

    /// Folds one event into the state.
    fn mutate(&mut self, event: &DomainEvent)
        requires
            old(self).inv(),
        ensures
            final(self).inv(),
            final(self)@ == Self::step(old(self)@, event@),
            final(self).spec_query() == old(self).spec_query(),
    ;
}

/// The state reached by folding the events of `log` that `q` selects, in log
/// order, starting from `init`.
pub open spec fn fold_state<S: StateQuery>(
    init: S::V,
    q: StreamQueryModel,
    log: Seq<EventModel>,
) -> S::V
    decreases log.len(),
{
    if log.len() == 0 {
        init
    } else {
        let prev = fold_state::<S>(init, q, log.drop_last());
        if query_matches(q, log.last()) {
            S::step(prev, log.last())
        } else {
            prev
        }
    }
}

/// The version of the stream that `q` selects out of `log`: the one-based
/// position of the last selected event, or zero when none is selected.
pub open spec fn stream_version(q: StreamQueryModel, log: Seq<EventModel>) -> nat
    decreases log.len(),
{
    if log.len() == 0 {
        0
    } else if query_matches(q, log.last()) {
        log.len()
    } else {
        stream_version(q, log.drop_last())
    }
}

/// The append-only event log.
#[derive(Debug)]
pub struct EventLog {
    pub events: Vec<DomainEvent>,
}

impl View for EventLog {
    type V = Seq<EventModel>;

    open spec fn view(&self) -> Seq<EventModel> {
        events_view(self.events@)
    }
}

/// The failure of executing a command: a domain error surfaced by the decision
/// processor, or a concurrency conflict detected by the writer.
#[derive(Debug, Clone, Copy, PartialEq, Eq, Structural)]
pub enum ApplicationError {
    Domain(Error),
    Conflict,
}

impl EventLog {
    /// The empty log.
    pub fn new() -> (r: EventLog)
        ensures
            r@ == Seq::<EventModel>::empty(),
    {
        let r = EventLog { events: Vec::new() };
        proof {
            assert(r@ =~= Seq::<EventModel>::empty());
        }
        r
    }

    /// The number of events in the log.
    pub fn len(&self) -> (n: usize)
        ensures
            n == self@.len(),
    {
        self.events.len()
    }

    /// The current version of the stream that `query` selects.
    pub fn current_version(&self, query: &StreamQuery) -> (v: u64)
        ensures
            v as nat == stream_version(query@, self@),
    {
        let mut version: u64 = 0;
        let mut i: usize = 0;
        while i < self.events.len()
            invariant
                0 <= i <= self.events.len(),
                self@.len() == self.events@.len(),
                version as nat == stream_version(query@, self@.take(i as int)),
            decreases self.events.len() - i,
        {
            if query.matches(&self.events[i]) {
                version = i as u64 + 1;
            }
            proof {
                lemma_version_take_step(query@, self@, i as int);
            }
            i += 1;
        }
        proof {
            assert(self@.take(self@.len() as int) =~= self@);
        }
        version
    }

    /// Appends `events` to the log if the version of the stream that `query`
    /// selects still equals `expected_version`; rejects with a conflict
    /// otherwise, leaving the log unchanged.
    pub fn append(
        &mut self,
        query: &StreamQuery,
        expected_version: u64,
        events: Vec<DomainEvent>,
    ) -> (r: Result<(), ApplicationError>)
        ensures
            stream_version(query@, old(self)@) == expected_version as nat ==> r == Ok::<
                (),
                ApplicationError,
            >(()) && final(self)@ == old(self)@ + events_view(events@),
            stream_version(query@, old(self)@) != expected_version as nat ==> r == Err::<
                (),
                ApplicationError,
            >(ApplicationError::Conflict) && final(self)@ == old(self)@,
    {
        let current = self.current_version(query);
        if current != expected_version {
            return Err(ApplicationError::Conflict);
        }
        let ghost prior = self@;
        let mut i: usize = 0;
        while i < events.len()
            invariant
                0 <= i <= events.len(),
                self@ =~= prior + events_view(events@.take(i as int)),
            decreases events.len() - i,
        {
            self.events.push(events[i].clone());
            proof {
                assert(self@ =~= prior + events_view(events@.take(i as int + 1)));
            }
            i += 1;
        }
        proof {
            assert(events@.take(events@.len() as int) =~= events@);
        }
        Ok(())
    }
}

/// One unfolding step of `stream_version` along a prefix of the log.
proof fn lemma_version_take_step(q: StreamQueryModel, log: Seq<EventModel>, i: int)
    requires
        0 <= i < log.len(),
    ensures
        stream_version(q, log.take(i + 1)) == if query_matches(q, log[i]) {
            (i + 1) as nat
        } else {
            stream_version(q, log.take(i))
        },
{
    assert(log.take(i + 1).drop_last() =~= log.take(i));
    assert(log.take(i + 1).last() == log[i]);
}

/// One unfolding step of `fold_state` along a prefix of the log.
pub proof fn lemma_fold_take_step<S: StateQuery>(
    init: S::V,
    q: StreamQueryModel,
    log: Seq<EventModel>,
    i: int,
)
    requires
        0 <= i < log.len(),
    ensures
        fold_state::<S>(init, q, log.take(i + 1)) == if query_matches(q, log[i]) {
            S::step(fold_state::<S>(init, q, log.take(i)), log[i])
        } else {
            fold_state::<S>(init, q, log.take(i))
        },
{
    assert(log.take(i + 1).drop_last() =~= log.take(i));
    assert(log.take(i + 1).last() == log[i]);
}

/// Hydrates a state from the log: replays the events its query selects, in log
/// order, through the state's fold step, and reports the version of the
/// stream, zero when the stream is empty.
pub fn hydrate<S: StateQuery>(init: S, log: &EventLog) -> (r: (S, u64))
    requires
        init.inv(),
    ensures
        r.0.inv(),
        r.0.spec_query() == init.spec_query(),
        r.0@ == fold_state::<S>(init@, init.spec_query(), log@),
        r.1 as nat == stream_version(init.spec_query(), log@),
{
    let ghost q0 = init.spec_query();
    let ghost v0 = init@;
    let query = init.query();
    let mut state = init;
    let mut version: u64 = 0;
    let mut i: usize = 0;
    while i < log.events.len()
        invariant
            0 <= i <= log.events.len(),
            log@.len() == log.events@.len(),
            state.inv(),
            state.spec_query() == q0,
            query@ == q0,
            state@ == fold_state::<S>(v0, q0, log@.take(i as int)),
            version as nat == stream_version(q0, log@.take(i as int)),
        decreases log.events.len() - i,
    {
        let event = &log.events[i];
        proof {
            assert(log@[i as int] == event@);
        }
        if query.matches(event) {
            state.mutate(event);
            version = i as u64 + 1;
        }
        proof {
            lemma_fold_take_step::<S>(v0, q0, log@, i as int);
            lemma_version_take_step(q0, log@, i as int);
        }
        i += 1;
    }
    proof {
        assert(log@.take(log@.len() as int) =~= log@);
    }
    (state, version)
}

} // verus!
