use car_rental::domain::{DomainEvent, Error, VehicleType};
use car_rental::query::{EventKinds, StreamFilter, StreamQuery};
use car_rental::state::{CustomerRentalStatus, VehicleAvailability};
use car_rental::store::{hydrate, ApplicationError, EventLog, StateQuery};

fn rented(customer: &str, plate: &str, vt: VehicleType, ts: i64) -> DomainEvent {
    DomainEvent::VehicleRented {
        customer_id: customer.to_string(),
        vehicle_id: plate.to_string(),
        vehicle_type: vt,
        start_date: ts,
    }
}

fn added(plate: &str, vt: VehicleType) -> DomainEvent {
    DomainEvent::VehicleAdded {
        vehicle_id: plate.to_string(),
        vehicle_type: vt,
    }
}

fn registered(customer: &str) -> DomainEvent {
    DomainEvent::CustomerRegistered {
        customer_id: customer.to_string(),
        first_name: "Bob".to_string(),
        last_name: "Solo".to_string(),
    }
}

fn given(events: Vec<DomainEvent>) -> EventLog {
    let mut log = EventLog::new();
    let q = StreamQuery::unfiltered();
    let v = log.current_version(&q);
    log.append(&q, v, events).unwrap();
    log
}

#[test]
fn filter_selects_group_and_identifiers() {
    let f = StreamFilter {
        kinds: EventKinds::rent_event(),
        customer_id: Some("c1".to_string()),
        vehicle_id: None,
        vehicle_type: None,
    };
    // In the group, carrying the constrained identifier with the right value.
    assert!(f.matches(&rented("c1", "v1", VehicleType::Car, 7)));
    // Wrong identifier value.
    assert!(!f.matches(&rented("c2", "v1", VehicleType::Car, 7)));
    // In the group, but the variant does not carry the constrained identifier.
    assert!(!f.matches(&added("v1", VehicleType::Car)));
    // Not in the group.
    assert!(!f.matches(&registered("c1")));
}

#[test]
fn intersect_selects_exactly_the_common_events() {
    let by_customer = StreamFilter {
        kinds: EventKinds::rent_event(),
        customer_id: Some("c1".to_string()),
        vehicle_id: None,
        vehicle_type: None,
    };
    let by_type = StreamFilter {
        kinds: EventKinds::all_events(),
        customer_id: None,
        vehicle_id: None,
        vehicle_type: Some(VehicleType::Car),
    };
    let both = by_customer.intersect(&by_type);
    assert!(both.matches(&rented("c1", "v1", VehicleType::Car, 7)));
    assert!(!both.matches(&rented("c1", "v1", VehicleType::Van, 7)));
    assert!(!both.matches(&rented("c2", "v1", VehicleType::Car, 7)));
    // Conjunction is commutative in what it selects.
    let flipped = by_type.intersect(&by_customer);
    let samples = vec![
        rented("c1", "v1", VehicleType::Car, 7),
        rented("c1", "v1", VehicleType::Van, 7),
        added("v1", VehicleType::Car),
        registered("c1"),
    ];
    for e in &samples {
        assert_eq!(both.matches(e), flipped.matches(e));
    }
}

#[test]
fn conflicting_constraints_select_nothing() {
    let c1 = StreamFilter {
        kinds: EventKinds::rent_event(),
        customer_id: Some("c1".to_string()),
        vehicle_id: None,
        vehicle_type: None,
    };
    let c2 = StreamFilter {
        kinds: EventKinds::rent_event(),
        customer_id: Some("c2".to_string()),
        vehicle_id: None,
        vehicle_type: None,
    };
    let both = c1.intersect(&c2);
    assert!(!both.matches(&rented("c1", "v1", VehicleType::Car, 7)));
    assert!(!both.matches(&rented("c2", "v1", VehicleType::Car, 7)));
}

#[test]
fn union_selects_either_side() {
    let customers = StreamQuery::single(StreamFilter {
        kinds: EventKinds::customer_event(),
        customer_id: None,
        vehicle_id: None,
        vehicle_type: None,
    });
    let vehicles = StreamQuery::single(StreamFilter {
        kinds: EventKinds::vehicle_event(),
        customer_id: None,
        vehicle_id: None,
        vehicle_type: None,
    });
    let either = customers.union(&vehicles);
    assert!(either.matches(&registered("c1")));
    assert!(either.matches(&added("v1", VehicleType::Car)));
    assert!(!either.matches(&rented("c1", "v1", VehicleType::Car, 7)));
    // Union is commutative in what it selects.
    let flipped = vehicles.union(&customers);
    let samples = vec![
        registered("c1"),
        added("v1", VehicleType::Car),
        rented("c1", "v1", VehicleType::Car, 7),
    ];
    for e in &samples {
        assert_eq!(either.matches(e), flipped.matches(e));
    }
}

#[test]
fn unfiltered_query_selects_everything() {
    let q = StreamQuery::unfiltered();
    assert!(q.matches(&registered("c1")));
    assert!(q.matches(&added("v1", VehicleType::Car)));
    assert!(q.matches(&rented("c1", "v1", VehicleType::Car, 7)));
}

#[test]
fn vehicle_type_identifier_values() {
    assert_eq!(VehicleType::Car.into_identifier_value(), "car");
    assert_eq!(VehicleType::PickUp.into_identifier_value(), "pick_up");
    assert_eq!(VehicleType::Van.into_identifier_value(), "van");
    assert_eq!(VehicleType::Truck.into_identifier_value(), "truck");
}

#[test]
fn error_messages() {
    assert_eq!(
        Error::AlreadyRegisteredVehicle.message(),
        "Already Registered Vehicle"
    );
    assert_eq!(
        Error::AlreadyRegisteredCustomer.message(),
        "Already Registered Customer"
    );
    assert_eq!(Error::NoAvailableVehicles.message(), "No Available Vehicles");
    assert_eq!(Error::RentalInProgress.message(), "Rental In Progress");
    assert_eq!(Error::CustomerNotFound.message(), "Customer Not Found");
    assert_eq!(Error::RentalNotFound.message(), "Rental Not Found");
}

#[test]
fn hydrating_the_empty_stream_yields_zero_state_and_no_events_version() {
    let log = EventLog::new();
    let (state, version) = hydrate(CustomerRentalStatus::new("c1".to_string()), &log);
    assert_eq!(version, 0);
    assert_eq!(state.customer_id, "c1");
    assert_eq!(state.rented_vehicle_id, None);
    assert_eq!(state.rented_vehicle_type, None);
}

#[test]
fn hydrating_folds_the_selected_events_in_log_order() {
    let log = given(vec![
        registered("c1"),
        added("v1", VehicleType::Car),
        added("v2", VehicleType::Car),
        rented("c1", "v2", VehicleType::Car, 7),
    ]);
    let (pool, version) = hydrate(VehicleAvailability::new(VehicleType::Car), &log);
    // Both cars entered the pool; the rented one left it.
    assert!(pool.contains(&"v1".to_string()));
    assert!(!pool.contains(&"v2".to_string()));
    // The version is the position of the last event the query selects.
    assert_eq!(version, 4);

    let (status, status_version) = hydrate(CustomerRentalStatus::new("c1".to_string()), &log);
    assert_eq!(status.rented_vehicle_id, Some("v2".to_string()));
    assert_eq!(status.rented_vehicle_type, Some(VehicleType::Car));
    assert_eq!(status_version, 4);

    // A customer-scoped stream ends at its own last event.
    let (_, other_version) = hydrate(CustomerRentalStatus::new("c2".to_string()), &log);
    assert_eq!(other_version, 0);
}

#[test]
fn replaying_the_same_stream_is_deterministic() {
    let log = given(vec![
        registered("c1"),
        added("v1", VehicleType::Car),
        rented("c1", "v1", VehicleType::Car, 7),
    ]);
    let (a, va) = hydrate(CustomerRentalStatus::new("c1".to_string()), &log);
    let (b, vb) = hydrate(CustomerRentalStatus::new("c1".to_string()), &log);
    assert_eq!(va, vb);
    assert_eq!(a.rented_vehicle_id, b.rented_vehicle_id);
    assert_eq!(a.rented_vehicle_type, b.rented_vehicle_type);
}

#[test]
fn append_with_stale_version_is_rejected() {
    let mut log = given(vec![registered("c1")]);
    let q = StreamQuery::unfiltered();
    let stale = 0;
    let before = log.events.len();
    assert_eq!(
        log.append(&q, stale, vec![added("v1", VehicleType::Car)]),
        Err(ApplicationError::Conflict)
    );
    assert_eq!(log.events.len(), before);
    // With the version observed now, the append goes through.
    let v = log.current_version(&q);
    assert_eq!(log.append(&q, v, vec![added("v1", VehicleType::Car)]), Ok(()));
    assert_eq!(log.events.len(), before + 1);
}

#[test]
fn stream_version_tracks_only_selected_events() {
    let log = given(vec![
        registered("c1"),
        added("v1", VehicleType::Car),
        registered("c2"),
    ]);
    let vehicle_stream = StreamQuery::single(StreamFilter {
        kinds: EventKinds::vehicle_event(),
        customer_id: None,
        vehicle_id: None,
        vehicle_type: None,
    });
    let customer_stream = StreamQuery::single(StreamFilter {
        kinds: EventKinds::customer_event(),
        customer_id: None,
        vehicle_id: None,
        vehicle_type: None,
    });
    assert_eq!(log.current_version(&vehicle_stream), 2);
    assert_eq!(log.current_version(&customer_stream), 3);
    assert_eq!(log.len(), 3);
}
