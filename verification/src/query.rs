//! The stream query composer: filters that select the events belonging to a
//! decision or a projection. A query is a disjunction of filters; a filter
//! selects the events whose variant lies in a named event group and whose
//! identifier fields equal the given constraints. A constraint on an
//! identifier field that an event variant does not carry excludes that event.

use vstd::prelude::*;

use crate::domain::{
    event_customer_id, event_vehicle_id, event_vehicle_type, DomainEvent, Email, EventModel,
    PlateNumber, VehicleType,
};

verus! {

/// A subset of the event variants: an event group.
#[derive(Debug, Clone, Copy, PartialEq, Eq, Structural)]
pub struct EventKinds {
    pub customer_registered: bool,
    pub vehicle_added: bool,
    pub vehicle_rented: bool,
    pub vehicle_returned: bool,
}

/// Whether the variant of `e` lies in the group `kinds`.
pub open spec fn kind_selected(kinds: EventKinds, e: EventModel) -> bool {
    match e {
        EventModel::CustomerRegistered { .. } => kinds.customer_registered,
        EventModel::VehicleAdded { .. } => kinds.vehicle_added,
        EventModel::VehicleRented { .. } => kinds.vehicle_rented,
        EventModel::VehicleReturned { .. } => kinds.vehicle_returned,
    }
}

impl EventKinds {
    /// The customer event group: registration facts about a customer.
    pub fn customer_event() -> (k: EventKinds)
        ensures
            k == customer_event_group(),
    {
        EventKinds {
            customer_registered: true,
            vehicle_added: false,
            vehicle_rented: false,
            vehicle_returned: false,
        }
    }

    /// The vehicle event group: registration facts about a vehicle.
    pub fn vehicle_event() -> (k: EventKinds)
        ensures
            k == vehicle_event_group(),
    {
        EventKinds {
            customer_registered: false,
            vehicle_added: true,
            vehicle_rented: false,
            vehicle_returned: false,
        }
    }

    /// The rent event group: every fact that moves a vehicle in or out of the
    /// availability pool.
    pub fn rent_event() -> (k: EventKinds)
        ensures
            k == rent_event_group(),
    {
        EventKinds {
            customer_registered: false,
            vehicle_added: true,
            vehicle_rented: true,
            vehicle_returned: true,
        }
    }

    /// The group of all event variants.
    pub fn all_events() -> (k: EventKinds)
        ensures
            k == all_events_group(),
    {
        EventKinds {
            customer_registered: true,
            vehicle_added: true,
            vehicle_rented: true,
            vehicle_returned: true,
        }
    }
}

/// The customer event group.
pub open spec fn customer_event_group() -> EventKinds {
    EventKinds {
        customer_registered: true,
        vehicle_added: false,
        vehicle_rented: false,
        vehicle_returned: false,
    }
}

/// The vehicle event group.
pub open spec fn vehicle_event_group() -> EventKinds {
    EventKinds {
        customer_registered: false,
        vehicle_added: true,
        vehicle_rented: false,
        vehicle_returned: false,
    }
}

/// The rent event group.
pub open spec fn rent_event_group() -> EventKinds {
    EventKinds {
        customer_registered: false,
        vehicle_added: true,
        vehicle_rented: true,
        vehicle_returned: true,
    }
}

/// The group of all event variants.
pub open spec fn all_events_group() -> EventKinds {
    EventKinds {
        customer_registered: true,
        vehicle_added: true,
        vehicle_rented: true,
        vehicle_returned: true,
    }
}

/// One conjunction: an event group together with equality constraints on the
/// identifier fields.
#[derive(Debug)]
pub struct StreamFilter {
    pub kinds: EventKinds,
    pub customer_id: Option<Email>,
    pub vehicle_id: Option<PlateNumber>,
    pub vehicle_type: Option<VehicleType>,
}

/// The mathematical model of a filter.
pub struct StreamFilterModel {
    pub kinds: EventKinds,
    pub customer_id: Option<Seq<char>>,
    pub vehicle_id: Option<Seq<char>>,
    pub vehicle_type: Option<VehicleType>,
}

impl View for StreamFilter {
    type V = StreamFilterModel;

    open spec fn view(&self) -> StreamFilterModel {
        StreamFilterModel {
            kinds: self.kinds,
            customer_id: match self.customer_id {
                Some(ref c) => Some(c@),
                None => None,
            },
            vehicle_id: match self.vehicle_id {
                Some(ref v) => Some(v@),
                None => None,
            },
            vehicle_type: self.vehicle_type,
        }
    }
}

/// Whether one equality constraint holds of an event's identifier field:
/// an unconstrained field always passes; a constrained field passes only when
/// the event carries that field with the constrained value.
pub open spec fn constraint_holds<T>(constraint: Option<T>, field: Option<T>) -> bool {
    match constraint {
        None => true,
        Some(v) => field == Some(v),
    }
}

/// Whether the filter selects the event.
pub open spec fn filter_matches(f: StreamFilterModel, e: EventModel) -> bool {
    &&& kind_selected(f.kinds, e)
    &&& constraint_holds(f.customer_id, event_customer_id(e))
    &&& constraint_holds(f.vehicle_id, event_vehicle_id(e))
    &&& constraint_holds(f.vehicle_type, event_vehicle_type(e))
}

/// The conjunction of two filters at the model level: the groups intersect and
/// the constraints combine; two distinct constraints on the same field can
/// never both hold, so the combination selects no event.
pub open spec fn filter_and(a: StreamFilterModel, b: StreamFilterModel) -> StreamFilterModel {
    if combined_constraints_consistent(a, b) {
        StreamFilterModel {
            kinds: kinds_intersect(a.kinds, b.kinds),
            customer_id: if a.customer_id is Some {
                a.customer_id
            } else {
                b.customer_id
            },
            vehicle_id: if a.vehicle_id is Some {
                a.vehicle_id
            } else {
                b.vehicle_id
            },
            vehicle_type: if a.vehicle_type is Some {
                a.vehicle_type
            } else {
                b.vehicle_type
            },
        }
    } else {
        empty_filter_model()
    }
}

/// Whether the identifier constraints of two filters agree wherever both are
/// present.
pub open spec fn combined_constraints_consistent(
    a: StreamFilterModel,
    b: StreamFilterModel,
) -> bool {
    &&& (a.customer_id is Some && b.customer_id is Some ==> a.customer_id == b.customer_id)
    &&& (a.vehicle_id is Some && b.vehicle_id is Some ==> a.vehicle_id == b.vehicle_id)
    &&& (a.vehicle_type is Some && b.vehicle_type is Some ==> a.vehicle_type == b.vehicle_type)
}

/// The intersection of two event groups.
pub open spec fn kinds_intersect(a: EventKinds, b: EventKinds) -> EventKinds {
    EventKinds {
        customer_registered: a.customer_registered && b.customer_registered,
        vehicle_added: a.vehicle_added && b.vehicle_added,
        vehicle_rented: a.vehicle_rented && b.vehicle_rented,
        vehicle_returned: a.vehicle_returned && b.vehicle_returned,
    }
}

/// A filter that selects no event.
pub open spec fn empty_filter_model() -> StreamFilterModel {
    StreamFilterModel {
        kinds: EventKinds {
            customer_registered: false,
            vehicle_added: false,
            vehicle_rented: false,
            vehicle_returned: false,
        },
        customer_id: None,
        vehicle_id: None,
        vehicle_type: None,
    }
}

/// The conjunction of two filters selects exactly the events that both select.
pub proof fn lemma_filter_and_matches(a: StreamFilterModel, b: StreamFilterModel, e: EventModel)
    ensures
        filter_matches(filter_and(a, b), e) == (filter_matches(a, e) && filter_matches(b, e)),
{
}

/// Conjunction of filters is commutative with respect to the events selected.
pub proof fn lemma_filter_and_commutative(a: StreamFilterModel, b: StreamFilterModel, e: EventModel)
    ensures
        filter_matches(filter_and(a, b), e) == filter_matches(filter_and(b, a), e),
{
}

/// Conjunction of filters is associative with respect to the events selected.
pub proof fn lemma_filter_and_associative(
    a: StreamFilterModel,
    b: StreamFilterModel,
    c: StreamFilterModel,
    e: EventModel,
)
    ensures
        filter_matches(filter_and(filter_and(a, b), c), e) == filter_matches(
            filter_and(a, filter_and(b, c)),
            e,
        ),
{
    lemma_filter_and_matches(filter_and(a, b), c, e);
    lemma_filter_and_matches(a, b, e);
    lemma_filter_and_matches(a, filter_and(b, c), e);
    lemma_filter_and_matches(b, c, e);
}

impl StreamFilter {
    /// A filter that selects every event of the group, with no identifier
    /// constraints.
    pub fn new(kinds: EventKinds) -> (f: StreamFilter)
        ensures
            f@ == (StreamFilterModel {
                kinds,
                customer_id: None,
                vehicle_id: None,
                vehicle_type: None,
            }),
    {
        StreamFilter { kinds, customer_id: None, vehicle_id: None, vehicle_type: None }
    }

    /// Whether this filter selects the given event.
    pub fn matches(&self, event: &DomainEvent) -> (b: bool)
        ensures
            b == filter_matches(self@, event@),
    {
        let kind_ok = match event {
            DomainEvent::CustomerRegistered { .. } => self.kinds.customer_registered,
            DomainEvent::VehicleAdded { .. } => self.kinds.vehicle_added,
            DomainEvent::VehicleRented { .. } => self.kinds.vehicle_rented,
            DomainEvent::VehicleReturned { .. } => self.kinds.vehicle_returned,
        };
        if !kind_ok {
            return false;
        }
        if let Some(ref want) = self.customer_id {
            let have = match event {
                DomainEvent::CustomerRegistered { ref customer_id, .. } => Some(customer_id),
                DomainEvent::VehicleAdded { .. } => None,
                DomainEvent::VehicleRented { ref customer_id, .. } => Some(customer_id),
                DomainEvent::VehicleReturned { ref customer_id, .. } => Some(customer_id),
            };
            match have {
                None => {
                    return false;
                },
                Some(c) => {
                    if !(*c == *want) {
                        return false;
                    }
                },
            }
        }
        if let Some(ref want) = self.vehicle_id {
            let have = match event {
                DomainEvent::CustomerRegistered { .. } => None,
                DomainEvent::VehicleAdded { ref vehicle_id, .. } => Some(vehicle_id),
                DomainEvent::VehicleRented { ref vehicle_id, .. } => Some(vehicle_id),
                DomainEvent::VehicleReturned { ref vehicle_id, .. } => Some(vehicle_id),
            };
            match have {
                None => {
                    return false;
                },
                Some(v) => {
                    if !(*v == *want) {
                        return false;
                    }
                },
            }
        }
        if let Some(want) = self.vehicle_type {
            let have = match event {
                DomainEvent::CustomerRegistered { .. } => None,
                DomainEvent::VehicleAdded { vehicle_type, .. } => Some(*vehicle_type),
                DomainEvent::VehicleRented { vehicle_type, .. } => Some(*vehicle_type),
                DomainEvent::VehicleReturned { vehicle_type, .. } => Some(*vehicle_type),
            };
            match have {
                None => {
                    return false;
                },
                Some(v) => {
                    if !(v == want) {
                        return false;
                    }
                },
            }
        }
        true
    }

    /// The conjunction of this filter with another.
    pub fn intersect(&self, other: &StreamFilter) -> (r: StreamFilter)
        ensures
            r@ == filter_and(self@, other@),
    {
        let consistent = {
            let customer_ok = match (&self.customer_id, &other.customer_id) {
                (Some(a), Some(b)) => *a == *b,
                _ => true,
            };
            let vehicle_ok = match (&self.vehicle_id, &other.vehicle_id) {
                (Some(a), Some(b)) => *a == *b,
                _ => true,
            };
            let vt_ok = match (&self.vehicle_type, &other.vehicle_type) {
                (Some(a), Some(b)) => *a == *b,
                _ => true,
            };
            customer_ok && vehicle_ok && vt_ok
        };
        if consistent {
            StreamFilter {
                kinds: EventKinds {
                    customer_registered: self.kinds.customer_registered
                        && other.kinds.customer_registered,
                    vehicle_added: self.kinds.vehicle_added && other.kinds.vehicle_added,
                    vehicle_rented: self.kinds.vehicle_rented && other.kinds.vehicle_rented,
                    vehicle_returned: self.kinds.vehicle_returned && other.kinds.vehicle_returned,
                },
                customer_id: if self.customer_id.is_some() {
                    clone_id(&self.customer_id)
                } else {
                    clone_id(&other.customer_id)
                },
                vehicle_id: if self.vehicle_id.is_some() {
                    clone_id(&self.vehicle_id)
                } else {
                    clone_id(&other.vehicle_id)
                },
                vehicle_type: if self.vehicle_type.is_some() {
                    self.vehicle_type
                } else {
                    other.vehicle_type
                },
            }
        } else {
            StreamFilter {
                kinds: EventKinds {
                    customer_registered: false,
                    vehicle_added: false,
                    vehicle_rented: false,
                    vehicle_returned: false,
                },
                customer_id: None,
                vehicle_id: None,
                vehicle_type: None,
            }
        }
    }

    /// A copy of this filter.
    pub fn copy_filter(&self) -> (r: StreamFilter)
        ensures
            r@ == self@,
    {
        StreamFilter {
            kinds: self.kinds,
            customer_id: clone_id(&self.customer_id),
            vehicle_id: clone_id(&self.vehicle_id),
            vehicle_type: self.vehicle_type,
        }
    }
}

/// A copy of an optional string identifier.
fn clone_id(id: &Option<String>) -> (r: Option<String>)
    ensures
        r == *id,
{
    match id {
        Some(s) => Some(s.clone()),
        None => None,
    }
}

/// A query for filtering the event stream: the disjunction of its filters.
#[derive(Debug)]
pub struct StreamQuery {
    pub filters: Vec<StreamFilter>,
}

/// The mathematical model of a query.
pub struct StreamQueryModel {
    pub filters: Seq<StreamFilterModel>,
}

impl View for StreamQuery {
    type V = StreamQueryModel;

    open spec fn view(&self) -> StreamQueryModel {
        StreamQueryModel { filters: self.filters@.map_values(|f: StreamFilter| f@) }
    }
}

/// Whether the query selects the event: some filter selects it.
pub open spec fn query_matches(q: StreamQueryModel, e: EventModel) -> bool {
    exists|i: int| 0 <= i < q.filters.len() && filter_matches(#[trigger] q.filters[i], e)
}

/// The union of two queries at the model level.
pub open spec fn query_union(a: StreamQueryModel, b: StreamQueryModel) -> StreamQueryModel {
    StreamQueryModel { filters: a.filters + b.filters }
}

/// The union of two queries selects exactly the events that either selects.
pub proof fn lemma_query_union_matches(a: StreamQueryModel, b: StreamQueryModel, e: EventModel)
    ensures
        query_matches(query_union(a, b), e) == (query_matches(a, e) || query_matches(b, e)),
{
    let u = query_union(a, b);
    if query_matches(a, e) {
        let i = choose|i: int| 0 <= i < a.filters.len() && filter_matches(#[trigger] a.filters[i], e);
        assert(u.filters[i] == a.filters[i]);
    }
    if query_matches(b, e) {
        let i = choose|i: int| 0 <= i < b.filters.len() && filter_matches(#[trigger] b.filters[i], e);
        assert(u.filters[a.filters.len() + i] == b.filters[i]);
    }
    if query_matches(u, e) {
        let i = choose|i: int| 0 <= i < u.filters.len() && filter_matches(#[trigger] u.filters[i], e);
        if i < a.filters.len() {
            assert(a.filters[i] == u.filters[i]);
        } else {
            assert(b.filters[i - a.filters.len()] == u.filters[i]);
        }
    }
}

/// Union of queries is commutative with respect to the events selected.
pub proof fn lemma_query_union_commutative(a: StreamQueryModel, b: StreamQueryModel, e: EventModel)
    ensures
        query_matches(query_union(a, b), e) == query_matches(query_union(b, a), e),
{
    lemma_query_union_matches(a, b, e);
    lemma_query_union_matches(b, a, e);
}

/// Union of queries is associative with respect to the events selected.
pub proof fn lemma_query_union_associative(
    a: StreamQueryModel,
    b: StreamQueryModel,
    c: StreamQueryModel,
    e: EventModel,
)
    ensures
        query_matches(query_union(query_union(a, b), c), e) == query_matches(
            query_union(a, query_union(b, c)),
            e,
        ),
{
    lemma_query_union_matches(query_union(a, b), c, e);
    lemma_query_union_matches(a, b, e);
    lemma_query_union_matches(a, query_union(b, c), e);
    lemma_query_union_matches(b, c, e);
}

impl StreamQuery {
    /// The query holding this single filter.
    pub fn single(filter: StreamFilter) -> (q: StreamQuery)
        ensures
            q@.filters =~= seq![filter@],
    {
        let mut filters: Vec<StreamFilter> = Vec::new();
        filters.push(filter);
        StreamQuery { filters }
    }

    /// The query that selects every event.
    pub fn unfiltered() -> (q: StreamQuery)
        ensures
            forall|e: EventModel| query_matches(q@, e),
    {
        let q = StreamQuery::single(StreamFilter::new(EventKinds::all_events()));
        proof {
            assert forall|e: EventModel| query_matches(q@, e) by {
                assert(filter_matches(q@.filters[0], e));
            }
        }
        q
    }

    /// Whether this query selects the given event.
    pub fn matches(&self, event: &DomainEvent) -> (b: bool)
        ensures
            b == query_matches(self@, event@),
    {
        let mut i: usize = 0;
        while i < self.filters.len()
            invariant
                0 <= i <= self.filters.len(),
                forall|j: int| 0 <= j < i ==> !filter_matches(#[trigger] self@.filters[j], event@),
            decreases self.filters.len() - i,
        {
            if self.filters[i].matches(event) {
                proof {
                    assert(filter_matches(self@.filters[i as int], event@));
                }
                return true;
            }
            i += 1;
        }
        false
    }

    /// The union of this query with another: the disjunction of both.
    pub fn union(&self, other: &StreamQuery) -> (r: StreamQuery)
        ensures
            r@ == query_union(self@, other@),
    {
        let mut filters: Vec<StreamFilter> = Vec::new();
        let mut i: usize = 0;
        while i < self.filters.len()
            invariant
                0 <= i <= self.filters.len(),
                filters@.len() == i,
                forall|k: int| 0 <= k < i ==> (#[trigger] filters@[k])@ == self@.filters[k],
            decreases self.filters.len() - i,
        {
            filters.push(self.filters[i].copy_filter());
            i += 1;
        }
        let mut j: usize = 0;
        let n = self.filters.len();
        while j < other.filters.len()
            invariant
                0 <= j <= other.filters.len(),
                n == self.filters@.len(),
                filters@.len() == n + j,
                forall|k: int| 0 <= k < n ==> (#[trigger] filters@[k])@ == self@.filters[k],
                forall|k: int|
                    n <= k < n + j ==> (#[trigger] filters@[k])@ == other@.filters[k - n],
            decreases other.filters.len() - j,
        {
            filters.push(other.filters[j].copy_filter());
            j += 1;
        }
        proof {
            assert(filters@.map_values(|f: StreamFilter| f@) =~= self@.filters + other@.filters);
        }
        StreamQuery { filters }
    }
}

} // verus!
