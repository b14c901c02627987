use car_rental::application::Application;
use car_rental::decision::{EndRent, RegisterCustomer, RegisterVehicle, StartRent};
use car_rental::domain::{DomainEvent, Error, VehicleType};
use car_rental::query::StreamQuery;
use car_rental::store::{hydrate, ApplicationError, EventLog};

fn customer(id: &str, first: &str, last: &str) -> RegisterCustomer {
    RegisterCustomer {
        customer_id: id.to_string(),
        first_name: first.to_string(),
        last_name: last.to_string(),
    }
}

fn vehicle(id: &str, vehicle_type: VehicleType) -> RegisterVehicle {
    RegisterVehicle {
        vehicle_id: id.to_string(),
        vehicle_type,
    }
}

#[test]
fn it_should_not_register_customer_twice() {
    let mut log = EventLog::new();
    let q = StreamQuery::unfiltered();
    let v = log.current_version(&q);
    log.append(
        &q,
        v,
        vec![DomainEvent::CustomerRegistered {
            customer_id: "customer".to_string(),
            first_name: "Bob".to_string(),
            last_name: "Solo".to_string(),
        }],
    )
    .unwrap();
    let command = customer("customer", "Bob", "Solo");
    let (state, _version) = hydrate(command.state_query(), &log);
    assert_eq!(command.process(&state), Err(Error::AlreadyRegisteredCustomer));
}

#[test]
fn duplicate_vehicle_registration_fails_regardless_of_type() {
    let mut app = Application::new();
    assert_eq!(app.register_vehicle(vehicle("AA-111", VehicleType::Car)), Ok(()));
    assert_eq!(
        app.register_vehicle(vehicle("AA-111", VehicleType::Truck)),
        Err(ApplicationError::Domain(Error::AlreadyRegisteredVehicle))
    );
    assert_eq!(app.log.events.len(), 1);
}

#[test]
fn duplicate_customer_registration_fails_with_different_names() {
    let mut app = Application::new();
    assert_eq!(app.register_customer(customer("c1", "Bob", "Solo")), Ok(()));
    assert_eq!(
        app.register_customer(customer("c1", "Han", "Duo")),
        Err(ApplicationError::Domain(Error::AlreadyRegisteredCustomer))
    );
    assert_eq!(app.log.events.len(), 1);
}

#[test]
fn start_rent_unregistered_customer_fails_without_events() {
    let mut app = Application::new();
    assert_eq!(app.register_vehicle(vehicle("AA-111", VehicleType::Car)), Ok(()));
    let before = app.log.events.len();
    assert_eq!(
        app.start_rent(StartRent {
            customer_id: "ghost".to_string(),
            vehicle_type: VehicleType::Car,
        }),
        Err(ApplicationError::Domain(Error::CustomerNotFound))
    );
    assert_eq!(app.log.events.len(), before);
}

#[test]
fn start_rent_with_empty_pool_fails() {
    let mut app = Application::new();
    assert_eq!(app.register_customer(customer("c1", "Bob", "Solo")), Ok(()));
    assert_eq!(app.register_vehicle(vehicle("AA-111", VehicleType::Van)), Ok(()));
    assert_eq!(
        app.start_rent(StartRent {
            customer_id: "c1".to_string(),
            vehicle_type: VehicleType::Car,
        }),
        Err(ApplicationError::Domain(Error::NoAvailableVehicles))
    );
}

#[test]
fn end_rent_without_open_rental_fails() {
    let mut app = Application::new();
    assert_eq!(app.register_customer(customer("c1", "Bob", "Solo")), Ok(()));
    assert_eq!(
        app.end_rent(EndRent {
            customer_id: "c1".to_string(),
        }),
        Err(ApplicationError::Domain(Error::RentalNotFound))
    );
}

#[test]
fn end_to_end_rental_lifecycle() {
    let mut app = Application::new();
    assert_eq!(app.register_customer(customer("c1", "Bob", "Solo")), Ok(()));
    assert_eq!(app.register_vehicle(vehicle("v1", VehicleType::Car)), Ok(()));

    assert_eq!(
        app.start_rent(StartRent {
            customer_id: "c1".to_string(),
            vehicle_type: VehicleType::Car,
        }),
        Ok(())
    );
    match app.log.events.last().unwrap() {
        DomainEvent::VehicleRented {
            customer_id,
            vehicle_id,
            vehicle_type,
            ..
        } => {
            assert_eq!(customer_id, "c1");
            assert_eq!(vehicle_id, "v1");
            assert_eq!(*vehicle_type, VehicleType::Car);
        }
        other => panic!("expected a rented event, got {:?}", other),
    }

    assert_eq!(
        app.start_rent(StartRent {
            customer_id: "c1".to_string(),
            vehicle_type: VehicleType::Car,
        }),
        Err(ApplicationError::Domain(Error::RentalInProgress))
    );

    assert_eq!(
        app.end_rent(EndRent {
            customer_id: "c1".to_string(),
        }),
        Ok(())
    );
    match app.log.events.last().unwrap() {
        DomainEvent::VehicleReturned {
            customer_id,
            vehicle_id,
            vehicle_type,
            ..
        } => {
            assert_eq!(customer_id, "c1");
            assert_eq!(vehicle_id, "v1");
            assert_eq!(*vehicle_type, VehicleType::Car);
        }
        other => panic!("expected a returned event, got {:?}", other),
    }

    let probe = StartRent {
        customer_id: "c1".to_string(),
        vehicle_type: VehicleType::Car,
    };
    let (state, _version) = hydrate(probe.state_query().2, &app.log);
    assert!(state.contains(&"v1".to_string()));
}

#[test]
fn customer_can_rent_again_after_returning() {
    let mut app = Application::new();
    assert_eq!(app.register_customer(customer("c1", "Bob", "Solo")), Ok(()));
    assert_eq!(app.register_vehicle(vehicle("v1", VehicleType::Car)), Ok(()));
    assert_eq!(
        app.start_rent(StartRent {
            customer_id: "c1".to_string(),
            vehicle_type: VehicleType::Car,
        }),
        Ok(())
    );
    assert_eq!(
        app.end_rent(EndRent {
            customer_id: "c1".to_string(),
        }),
        Ok(())
    );
    assert_eq!(
        app.start_rent(StartRent {
            customer_id: "c1".to_string(),
            vehicle_type: VehicleType::Car,
        }),
        Ok(())
    );
}

#[test]
fn rental_takes_the_most_recently_added_vehicle() {
    let mut app = Application::new();
    assert_eq!(app.register_customer(customer("c1", "Bob", "Solo")), Ok(()));
    assert_eq!(app.register_vehicle(vehicle("v1", VehicleType::Car)), Ok(()));
    assert_eq!(app.register_vehicle(vehicle("v2", VehicleType::Car)), Ok(()));
    assert_eq!(
        app.start_rent(StartRent {
            customer_id: "c1".to_string(),
            vehicle_type: VehicleType::Car,
        }),
        Ok(())
    );
    match app.log.events.last().unwrap() {
        DomainEvent::VehicleRented { vehicle_id, .. } => assert_eq!(vehicle_id, "v2"),
        other => panic!("expected a rented event, got {:?}", other),
    }
}

#[test]
fn pools_are_scoped_by_vehicle_type() {
    let mut app = Application::new();
    assert_eq!(app.register_customer(customer("c1", "Bob", "Solo")), Ok(()));
    assert_eq!(app.register_customer(customer("c2", "Han", "Duo")), Ok(()));
    assert_eq!(app.register_vehicle(vehicle("v1", VehicleType::Car)), Ok(()));
    assert_eq!(app.register_vehicle(vehicle("t1", VehicleType::Truck)), Ok(()));
    assert_eq!(
        app.start_rent(StartRent {
            customer_id: "c1".to_string(),
            vehicle_type: VehicleType::Car,
        }),
        Ok(())
    );
    // The car pool is exhausted, but the truck pool is untouched.
    assert_eq!(
        app.start_rent(StartRent {
            customer_id: "c2".to_string(),
            vehicle_type: VehicleType::Car,
        }),
        Err(ApplicationError::Domain(Error::NoAvailableVehicles))
    );
    assert_eq!(
        app.start_rent(StartRent {
            customer_id: "c2".to_string(),
            vehicle_type: VehicleType::Truck,
        }),
        Ok(())
    );
}
