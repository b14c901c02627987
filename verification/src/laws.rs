//! The laws of the decision engine, stated over the log-level outcome
//! functions and proved for every log.

use vstd::prelude::*;

use crate::decision::{
    end_rent_outcome, register_customer_outcome, register_vehicle_outcome,
    spec_available_vehicles, spec_customer_registered, spec_rental, spec_vehicle_registered,
    start_rent_error, start_rent_outcome,
};
use crate::domain::{Error, EventModel, Timestamp, VehicleType};
use crate::query::{filter_matches, query_matches, StreamQueryModel};
use crate::state::{
    availability_query, customer_registration_query, lemma_remove_id_contains,
    rental_status_query, seq_contains_id, vehicle_registration_query, CustomerRegistration,
    CustomerRentalStatus, VehicleAvailability, VehicleRegistration,
};
use crate::store::{fold_state, StateQuery};

verus! {

/// One unfolding step of `fold_state` past a single appended event.
pub proof fn lemma_fold_push<S: StateQuery>(
    init: S::V,
    q: StreamQueryModel,
    log: Seq<EventModel>,
    e: EventModel,
)
    ensures
        fold_state::<S>(init, q, log + seq![e]) == if query_matches(q, e) {
            S::step(fold_state::<S>(init, q, log), e)
        } else {
            fold_state::<S>(init, q, log)
        },
{
    assert((log + seq![e]).drop_last() =~= log);
    assert((log + seq![e]).last() == e);
}

/// A registered vehicle stays registered under any further events.
pub proof fn lemma_vehicle_registered_monotone(
    log: Seq<EventModel>,
    more: Seq<EventModel>,
    vehicle_id: Seq<char>,
)
    requires
        spec_vehicle_registered(log, vehicle_id),
    ensures
        spec_vehicle_registered(log + more, vehicle_id),
    decreases more.len(),
{
    if more.len() == 0 {
        assert(log + more =~= log);
    } else {
        lemma_vehicle_registered_monotone(log, more.drop_last(), vehicle_id);
        assert(log + more.drop_last() =~= (log + more).drop_last());
    }
}

/// A registered customer stays registered under any further events.
pub proof fn lemma_customer_registered_monotone(
    log: Seq<EventModel>,
    more: Seq<EventModel>,
    customer_id: Seq<char>,
)
    requires
        spec_customer_registered(log, customer_id),
    ensures
        spec_customer_registered(log + more, customer_id),
    decreases more.len(),
{
    if more.len() == 0 {
        assert(log + more =~= log);
    } else {
        lemma_customer_registered_monotone(log, more.drop_last(), customer_id);
        assert(log + more.drop_last() =~= (log + more).drop_last());
    }
}

/// The added fact registers its vehicle.
pub proof fn lemma_added_registers(
    log: Seq<EventModel>,
    vehicle_id: Seq<char>,
    vehicle_type: VehicleType,
)
    ensures
        spec_vehicle_registered(
            log + seq![EventModel::VehicleAdded { vehicle_id, vehicle_type }],
            vehicle_id,
        ),
{
    let e = EventModel::VehicleAdded { vehicle_id, vehicle_type };
    let q = vehicle_registration_query(vehicle_id);
    assert(filter_matches(q.filters[0], e));
    lemma_fold_push::<VehicleRegistration>(
        crate::state::VehicleRegistrationModel { vehicle_id, registered: false },
        q,
        log,
        e,
    );
}

/// The registered fact registers its customer.
pub proof fn lemma_registered_registers(
    log: Seq<EventModel>,
    customer_id: Seq<char>,
    first_name: Seq<char>,
    last_name: Seq<char>,
)
    ensures
        spec_customer_registered(
            log + seq![EventModel::CustomerRegistered { customer_id, first_name, last_name }],
            customer_id,
        ),
{
    let e = EventModel::CustomerRegistered { customer_id, first_name, last_name };
    let q = customer_registration_query(customer_id);
    assert(filter_matches(q.filters[0], e));
    lemma_fold_push::<CustomerRegistration>(
        crate::state::CustomerRegistrationModel { customer_id, registered: false },
        q,
        log,
        e,
    );
}

/// Once a vehicle registration has succeeded, a second registration of the
/// same plate always fails with the duplicate error, whatever type it names
/// and whatever events have been appended in between.
pub proof fn lemma_register_vehicle_once(
    log: Seq<EventModel>,
    more: Seq<EventModel>,
    vehicle_id: Seq<char>,
    t1: VehicleType,
    t2: VehicleType,
)
    requires
        register_vehicle_outcome(log, vehicle_id, t1) is Ok,
    ensures
        register_vehicle_outcome(
            log + register_vehicle_outcome(log, vehicle_id, t1).unwrap() + more,
            vehicle_id,
            t2,
        ) == Err::<Seq<EventModel>, Error>(Error::AlreadyRegisteredVehicle),
{
    lemma_added_registers(log, vehicle_id, t1);
    lemma_vehicle_registered_monotone(
        log + seq![EventModel::VehicleAdded { vehicle_id, vehicle_type: t1 }],
        more,
        vehicle_id,
    );
}

/// Once a customer registration has succeeded, a second registration of the
/// same identifier always fails with the duplicate error, whatever names it
/// carries and whatever events have been appended in between.
pub proof fn lemma_register_customer_once(
    log: Seq<EventModel>,
    more: Seq<EventModel>,
    customer_id: Seq<char>,
    first1: Seq<char>,
    last1: Seq<char>,
    first2: Seq<char>,
    last2: Seq<char>,
)
    requires
        register_customer_outcome(log, customer_id, first1, last1) is Ok,
    ensures
        register_customer_outcome(
            log + register_customer_outcome(log, customer_id, first1, last1).unwrap() + more,
            customer_id,
            first2,
            last2,
        ) == Err::<Seq<EventModel>, Error>(Error::AlreadyRegisteredCustomer),
{
    lemma_registered_registers(log, customer_id, first1, last1);
    lemma_customer_registered_monotone(
        log + seq![
            EventModel::CustomerRegistered {
                customer_id,
                first_name: first1,
                last_name: last1,
            },
        ],
        more,
        customer_id,
    );
}

/// Starting a rental for an unregistered customer always fails with the
/// customer-not-found error; no event is emitted.
pub proof fn lemma_start_rent_unregistered(
    log: Seq<EventModel>,
    customer_id: Seq<char>,
    vehicle_type: VehicleType,
    ts: Timestamp,
)
    requires
        !spec_customer_registered(log, customer_id),
    ensures
        start_rent_outcome(log, customer_id, vehicle_type, ts) == Err::<Seq<EventModel>, Error>(
            Error::CustomerNotFound,
        ),
{
}

/// Starting a rental for a registered customer with no open rental fails with
/// the no-available-vehicles error when the pool of the requested type is
/// empty. A customer who already holds a rental is turned away with the
/// rental-in-progress error before the pool is consulted.
pub proof fn lemma_start_rent_empty_pool(
    log: Seq<EventModel>,
    customer_id: Seq<char>,
    vehicle_type: VehicleType,
    ts: Timestamp,
)
    requires
        spec_customer_registered(log, customer_id),
        spec_rental(log, customer_id) is None,
        spec_available_vehicles(log, vehicle_type).len() == 0,
    ensures
        start_rent_outcome(log, customer_id, vehicle_type, ts) == Err::<Seq<EventModel>, Error>(
            Error::NoAvailableVehicles,
        ),
{
}

/// The rented fact opens a rental for its customer.
pub proof fn lemma_rented_opens(
    log: Seq<EventModel>,
    customer_id: Seq<char>,
    vehicle_id: Seq<char>,
    vehicle_type: VehicleType,
    ts: Timestamp,
)
    ensures
        spec_rental(
            log + seq![
                EventModel::VehicleRented {
                    customer_id,
                    vehicle_id,
                    vehicle_type,
                    start_date: ts,
                },
            ],
            customer_id,
        ) == Some((vehicle_id, vehicle_type)),
{
    let e = EventModel::VehicleRented { customer_id, vehicle_id, vehicle_type, start_date: ts };
    let q = rental_status_query(customer_id);
    assert(filter_matches(q.filters[0], e));
    lemma_fold_push::<CustomerRentalStatus>(
        crate::state::CustomerRentalStatusModel {
            customer_id,
            rented_vehicle_type: None,
            rented_vehicle_id: None,
        },
        q,
        log,
        e,
    );
}

/// Whether an event is the return of a vehicle by the given customer.
pub open spec fn is_return_for(e: EventModel, customer_id: Seq<char>) -> bool {
    match e {
        EventModel::VehicleReturned { customer_id: c, .. } => c == customer_id,
        _ => false,
    }
}

/// An open rental stays open under any further events among which the
/// customer returns no vehicle.
pub proof fn lemma_rental_persists(log: Seq<EventModel>, more: Seq<EventModel>, customer_id: Seq<char>)
    requires
        spec_rental(log, customer_id) is Some,
        forall|i: int| 0 <= i < more.len() ==> !is_return_for(#[trigger] more[i], customer_id),
    ensures
        spec_rental(log + more, customer_id) is Some,
    decreases more.len(),
{
    if more.len() == 0 {
        assert(log + more =~= log);
    } else {
        assert forall|i: int| 0 <= i < more.drop_last().len() implies !is_return_for(
            #[trigger] more.drop_last()[i],
            customer_id,
        ) by {
            assert(more.drop_last()[i] == more[i]);
        }
        lemma_rental_persists(log, more.drop_last(), customer_id);
        assert(log + more.drop_last() =~= (log + more).drop_last());
        assert(!is_return_for(more[more.len() - 1], customer_id));
        assert((log + more).last() == more.last());
    }
}

/// After a successful rental start, a second start for the same customer
/// fails with the rental-in-progress error, whatever type it asks for, until
/// the customer returns a vehicle.
pub proof fn lemma_no_second_rental(
    log: Seq<EventModel>,
    more: Seq<EventModel>,
    customer_id: Seq<char>,
    vt1: VehicleType,
    ts1: Timestamp,
    vt2: VehicleType,
    ts2: Timestamp,
)
    requires
        start_rent_error(log, customer_id, vt1) is None,
        forall|i: int| 0 <= i < more.len() ==> !is_return_for(#[trigger] more[i], customer_id),
    ensures
        start_rent_outcome(
            log + start_rent_outcome(log, customer_id, vt1, ts1).unwrap() + more,
            customer_id,
            vt2,
            ts2,
        ) == Err::<Seq<EventModel>, Error>(Error::RentalInProgress),
{
    let es = start_rent_outcome(log, customer_id, vt1, ts1).unwrap();
    lemma_rented_opens(
        log,
        customer_id,
        spec_available_vehicles(log, vt1).last(),
        vt1,
        ts1,
    );
    lemma_rental_persists(log + es, more, customer_id);
    lemma_customer_registered_monotone(log, es + more, customer_id);
    assert(log + es + more =~= log + (es + more));
}

/// The returned fact closes its customer's rental.
pub proof fn lemma_end_rent_clears(log: Seq<EventModel>, customer_id: Seq<char>, ts: Timestamp)
    requires
        spec_rental(log, customer_id) is Some,
    ensures
        spec_rental(log + end_rent_outcome(log, customer_id, ts).unwrap(), customer_id) is None,
{
    let (vehicle_id, vehicle_type) = spec_rental(log, customer_id).unwrap();
    let e = EventModel::VehicleReturned { customer_id, vehicle_id, vehicle_type, returned_date: ts };
    let q = rental_status_query(customer_id);
    assert(filter_matches(q.filters[0], e));
    lemma_fold_push::<CustomerRentalStatus>(
        crate::state::CustomerRentalStatusModel {
            customer_id,
            rented_vehicle_type: None,
            rented_vehicle_id: None,
        },
        q,
        log,
        e,
    );
}

/// Ending a rental for a customer with no open rental fails with the
/// rental-not-found error; no event is emitted.
pub proof fn lemma_end_rent_no_rental(log: Seq<EventModel>, customer_id: Seq<char>, ts: Timestamp)
    requires
        spec_rental(log, customer_id) is None,
    ensures
        end_rent_outcome(log, customer_id, ts) == Err::<Seq<EventModel>, Error>(
            Error::RentalNotFound,
        ),
{
}

/// An added vehicle enters its type's availability pool.
pub proof fn lemma_added_enters_pool(log: Seq<EventModel>, vehicle_id: Seq<char>, vt: VehicleType)
    ensures
        seq_contains_id(
            spec_available_vehicles(log + seq![EventModel::VehicleAdded { vehicle_id, vehicle_type: vt }], vt),
            vehicle_id,
        ),
{
    let e = EventModel::VehicleAdded { vehicle_id, vehicle_type: vt };
    let q = availability_query(vt);
    assert(filter_matches(q.filters[0], e));
    lemma_fold_push::<VehicleAvailability>(
        crate::state::VehicleAvailabilityModel { vehicle_type: vt, available_vehicles: Seq::empty() },
        q,
        log,
        e,
    );
    let pool = spec_available_vehicles(log, vt);
    if !seq_contains_id(pool, vehicle_id) {
        assert(pool.push(vehicle_id)[pool.len() as int] == vehicle_id);
    }
}

/// A rented vehicle leaves its type's availability pool.
pub proof fn lemma_rented_leaves_pool(
    log: Seq<EventModel>,
    customer_id: Seq<char>,
    vehicle_id: Seq<char>,
    vt: VehicleType,
    ts: Timestamp,
)
    ensures
        !seq_contains_id(
            spec_available_vehicles(
                log + seq![
                    EventModel::VehicleRented {
                        customer_id,
                        vehicle_id,
                        vehicle_type: vt,
                        start_date: ts,
                    },
                ],
                vt,
            ),
            vehicle_id,
        ),
{
    let e = EventModel::VehicleRented { customer_id, vehicle_id, vehicle_type: vt, start_date: ts };
    let q = availability_query(vt);
    assert(filter_matches(q.filters[0], e));
    lemma_fold_push::<VehicleAvailability>(
        crate::state::VehicleAvailabilityModel { vehicle_type: vt, available_vehicles: Seq::empty() },
        q,
        log,
        e,
    );
    lemma_remove_id_contains(spec_available_vehicles(log, vt), vehicle_id, vehicle_id);
}

/// A returned vehicle re-enters its type's availability pool.
pub proof fn lemma_returned_reenters_pool(
    log: Seq<EventModel>,
    customer_id: Seq<char>,
    vehicle_id: Seq<char>,
    vt: VehicleType,
    ts: Timestamp,
)
    ensures
        seq_contains_id(
            spec_available_vehicles(
                log + seq![
                    EventModel::VehicleReturned {
                        customer_id,
                        vehicle_id,
                        vehicle_type: vt,
                        returned_date: ts,
                    },
                ],
                vt,
            ),
            vehicle_id,
        ),
{
    let e = EventModel::VehicleReturned {
        customer_id,
        vehicle_id,
        vehicle_type: vt,
        returned_date: ts,
    };
    let q = availability_query(vt);
    assert(filter_matches(q.filters[0], e));
    lemma_fold_push::<VehicleAvailability>(
        crate::state::VehicleAvailabilityModel { vehicle_type: vt, available_vehicles: Seq::empty() },
        q,
        log,
        e,
    );
    let pool = spec_available_vehicles(log, vt);
    if !seq_contains_id(pool, vehicle_id) {
        assert(pool.push(vehicle_id)[pool.len() as int] == vehicle_id);
    }
}

/// The events of a log folded without any filter.
pub open spec fn fold_events<S: StateQuery>(init: S::V, events: Seq<EventModel>) -> S::V
    decreases events.len(),
{
    if events.len() == 0 {
        init
    } else {
        S::step(fold_events::<S>(init, events.drop_last()), events.last())
    }
}

/// Hydrating from an empty stream yields the zero-valued state and the
/// no-events version.
pub proof fn lemma_hydrate_empty<S: StateQuery>(init: S::V, q: StreamQueryModel)
    ensures
        fold_state::<S>(init, q, Seq::empty()) == init,
        crate::store::stream_version(q, Seq::empty()) == 0,
{
}

/// Round trip: appending events that the state's query selects to an empty
/// log and re-hydrating yields exactly the fold of those events over the zero
/// state.
pub proof fn lemma_round_trip<S: StateQuery>(
    init: S::V,
    q: StreamQueryModel,
    events: Seq<EventModel>,
)
    requires
        forall|i: int| 0 <= i < events.len() ==> query_matches(q, #[trigger] events[i]),
    ensures
        fold_state::<S>(init, q, Seq::empty() + events) == fold_events::<S>(init, events),
    decreases events.len(),
{
    assert(Seq::empty() + events =~= events);
    if events.len() > 0 {
        assert forall|i: int| 0 <= i < events.drop_last().len() implies query_matches(
            q,
            #[trigger] events.drop_last()[i],
        ) by {
            assert(events.drop_last()[i] == events[i]);
        }
        lemma_round_trip::<S>(init, q, events.drop_last());
        assert(Seq::empty() + events.drop_last() =~= events.drop_last());
        assert(query_matches(q, events[events.len() - 1]));
        assert(events.last() == events[events.len() - 1]);
    }
}

} // verus!
