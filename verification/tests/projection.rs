use car_rental::domain::{DomainEvent, VehicleType};
use car_rental::listener::Listener;
use car_rental::query::StreamQuery;
use car_rental::read_model::ReadModelProjection;
use car_rental::store::EventLog;

fn registered(customer: &str, first: &str, last: &str) -> DomainEvent {
    DomainEvent::CustomerRegistered {
        customer_id: customer.to_string(),
        first_name: first.to_string(),
        last_name: last.to_string(),
    }
}

fn added(plate: &str, vt: VehicleType) -> DomainEvent {
    DomainEvent::VehicleAdded {
        vehicle_id: plate.to_string(),
        vehicle_type: vt,
    }
}

fn rented(customer: &str, plate: &str, ts: i64) -> DomainEvent {
    DomainEvent::VehicleRented {
        customer_id: customer.to_string(),
        vehicle_id: plate.to_string(),
        vehicle_type: VehicleType::Car,
        start_date: ts,
    }
}

fn returned(customer: &str, plate: &str, ts: i64) -> DomainEvent {
    DomainEvent::VehicleReturned {
        customer_id: customer.to_string(),
        vehicle_id: plate.to_string(),
        vehicle_type: VehicleType::Car,
        returned_date: ts,
    }
}

fn given(events: Vec<DomainEvent>) -> EventLog {
    let mut log = EventLog::new();
    let q = StreamQuery::unfiltered();
    let v = log.current_version(&q);
    log.append(&q, v, events).unwrap();
    log
}

#[test]
fn handlers_upsert_the_three_tables() {
    let mut projection = ReadModelProjection::new();
    projection.handle(&registered("c1", "Bob", "Solo"));
    projection.handle(&added("v1", VehicleType::PickUp));
    projection.handle(&rented("c1", "v1", 7));

    assert_eq!(projection.customers.len(), 1);
    assert_eq!(projection.customers[0].customer_id, "c1");
    assert_eq!(projection.customers[0].first_name, "Bob");
    assert_eq!(projection.customers[0].last_name, "Solo");

    assert_eq!(projection.vehicles.len(), 1);
    assert_eq!(projection.vehicles[0].vehicle_id, "v1");
    assert_eq!(projection.vehicles[0].vehicle_type, "pick_up");

    assert_eq!(projection.rents.len(), 1);
    assert_eq!(projection.rents[0].customer_id, "c1");
    assert_eq!(projection.rents[0].vehicle_id, "v1");
    assert_eq!(projection.rents[0].start_date, 7);
    assert_eq!(projection.rents[0].end_date, None);
}

#[test]
fn duplicate_inserts_are_benign() {
    let mut projection = ReadModelProjection::new();
    projection.handle(&registered("c1", "Bob", "Solo"));
    projection.handle(&registered("c1", "Bob", "Solo"));
    projection.handle(&added("v1", VehicleType::Car));
    projection.handle(&added("v1", VehicleType::Car));
    projection.handle(&rented("c1", "v1", 7));
    projection.handle(&rented("c1", "v1", 7));
    assert_eq!(projection.customers.len(), 1);
    assert_eq!(projection.vehicles.len(), 1);
    assert_eq!(projection.rents.len(), 1);
}

#[test]
fn returned_vehicle_closes_the_open_rental_row() {
    let mut projection = ReadModelProjection::new();
    projection.handle(&rented("c1", "v1", 7));
    projection.handle(&returned("c1", "v1", 9));
    assert_eq!(projection.rents.len(), 1);
    assert_eq!(projection.rents[0].end_date, Some(9));
}

#[test]
fn replaying_a_returned_event_is_a_no_op() {
    let mut projection = ReadModelProjection::new();
    projection.handle(&rented("c1", "v1", 7));
    projection.handle(&returned("c1", "v1", 9));
    // A re-delivered event, even one carrying a later clock reading, finds no
    // open row and changes nothing.
    projection.handle(&returned("c1", "v1", 30));
    assert_eq!(projection.rents.len(), 1);
    assert_eq!(projection.rents[0].end_date, Some(9));
}

#[test]
fn returned_without_matching_open_rental_is_a_no_op() {
    let mut projection = ReadModelProjection::new();
    projection.handle(&returned("c1", "v1", 9));
    assert_eq!(projection.rents.len(), 0);
}

#[test]
fn listener_identity_and_query() {
    let projection = ReadModelProjection::new();
    assert_eq!(projection.id(), "drive_me_crazy_rentals");
    let q = projection.query();
    assert!(q.matches(&registered("c1", "Bob", "Solo")));
    assert!(q.matches(&added("v1", VehicleType::Car)));
    assert!(q.matches(&rented("c1", "v1", 7)));
    assert!(q.matches(&returned("c1", "v1", 9)));
}

#[test]
fn poll_catches_up_and_advances_the_checkpoint() {
    let log = given(vec![
        registered("c1", "Bob", "Solo"),
        added("v1", VehicleType::Car),
        rented("c1", "v1", 7),
    ]);
    let mut listener = Listener::new(0, ReadModelProjection::new());
    listener.poll(&log);
    assert_eq!(listener.checkpoint, 3);
    assert_eq!(listener.projection.customers.len(), 1);
    assert_eq!(listener.projection.vehicles.len(), 1);
    assert_eq!(listener.projection.rents.len(), 1);
    // A second cycle over an unchanged log delivers nothing.
    listener.poll(&log);
    assert_eq!(listener.checkpoint, 3);
    assert_eq!(listener.projection.customers.len(), 1);
}

#[test]
fn restart_resumes_after_the_checkpoint_without_gaps() {
    let first_half = vec![registered("c1", "Bob", "Solo"), added("v1", VehicleType::Car)];
    let log = given(first_half.clone());
    let mut listener = Listener::new(0, ReadModelProjection::new());
    listener.poll(&log);
    assert_eq!(listener.checkpoint, 2);

    // The process restarts: a new listener resumes from the durable
    // checkpoint and the projection built so far.
    let checkpoint = listener.checkpoint;
    let projection = listener.projection;
    let mut log = given(first_half);
    let q = StreamQuery::unfiltered();
    let v = log.current_version(&q);
    log.append(&q, v, vec![rented("c1", "v1", 7), returned("c1", "v1", 9)])
        .unwrap();
    let mut resumed = Listener::new(checkpoint, projection);
    resumed.poll(&log);
    assert_eq!(resumed.checkpoint, 4);
    assert_eq!(resumed.projection.customers.len(), 1);
    assert_eq!(resumed.projection.vehicles.len(), 1);
    assert_eq!(resumed.projection.rents.len(), 1);
    assert_eq!(resumed.projection.rents[0].end_date, Some(9));
}
