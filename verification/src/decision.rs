//! The decision processors: pure functions from hydrated state and command to
//! either the events to append or a domain error. The only effect is the
//! timestamp stamped on emitted events, read from the system clock.
//!
//! A rental decision checks, in order: the customer is registered, the
//! customer holds no open rental, and the pool of the requested vehicle type
//! is non-empty. The vehicle granted is the one most recently entered into
//! the pool; callers must not rely on which plate is picked beyond that
//! documented policy.

use vstd::prelude::*;

use crate::domain::{
    events_view, DomainEvent, Email, Error, EventModel, PlateNumber, Timestamp, VehicleType,
};
use crate::state::{
    availability_query, customer_registration_query, rental_status_query,
    vehicle_registration_query, CustomerRegistration, CustomerRegistrationModel,
    CustomerRentalStatus, CustomerRentalStatusModel, VehicleAvailability, VehicleAvailabilityModel,
    VehicleRegistration, VehicleRegistrationModel,
};
use crate::store::{fold_state, StateQuery};

verus! {

/// Relies on chrono::Utc::now for the current wall-clock time; nothing is
/// promised of the value read.
#[verifier::external_body]
fn now_timestamp() -> Timestamp {
    chrono::Utc::now().timestamp_millis()
}

/// Whether the log registers the customer: the registration state hydrated
/// from the log says so.
pub open spec fn spec_customer_registered(log: Seq<EventModel>, customer_id: Seq<char>) -> bool {
    fold_state::<CustomerRegistration>(
        CustomerRegistrationModel { customer_id, registered: false },
        customer_registration_query(customer_id),
        log,
    ).registered
}

/// Whether the log registers the vehicle.
pub open spec fn spec_vehicle_registered(log: Seq<EventModel>, vehicle_id: Seq<char>) -> bool {
    fold_state::<VehicleRegistration>(
        VehicleRegistrationModel { vehicle_id, registered: false },
        vehicle_registration_query(vehicle_id),
        log,
    ).registered
}

/// The pool of available vehicles of one type, hydrated from the log.
pub open spec fn spec_available_vehicles(log: Seq<EventModel>, vehicle_type: VehicleType) -> Seq<
    Seq<char>,
> {
    fold_state::<VehicleAvailability>(
        VehicleAvailabilityModel { vehicle_type, available_vehicles: Seq::empty() },
        availability_query(vehicle_type),
        log,
    ).available_vehicles
}

/// The rental status of one customer, hydrated from the log.
pub open spec fn spec_rental_status(
    log: Seq<EventModel>,
    customer_id: Seq<char>,
) -> CustomerRentalStatusModel {
    fold_state::<CustomerRentalStatus>(
        CustomerRentalStatusModel {
            customer_id,
            rented_vehicle_type: None,
            rented_vehicle_id: None,
        },
        rental_status_query(customer_id),
        log,
    )
}

/// The open rental of one customer: the rented vehicle and its type, if a
/// rental is open.
pub open spec fn spec_rental(log: Seq<EventModel>, customer_id: Seq<char>) -> Option<
    (Seq<char>, VehicleType),
> {
    let st = spec_rental_status(log, customer_id);
    match (st.rented_vehicle_id, st.rented_vehicle_type) {
        (Some(v), Some(t)) => Some((v, t)),
        _ => None,
    }
}

/// The outcome of a vehicle registration on a given log: the added fact, or
/// the duplicate-registration error if and only if the vehicle is already
/// registered.
pub open spec fn register_vehicle_outcome(
    log: Seq<EventModel>,
    vehicle_id: Seq<char>,
    vehicle_type: VehicleType,
) -> Result<Seq<EventModel>, Error> {
    if spec_vehicle_registered(log, vehicle_id) {
        Err(Error::AlreadyRegisteredVehicle)
    } else {
        Ok(seq![EventModel::VehicleAdded { vehicle_id, vehicle_type }])
    }
}

/// The outcome of a customer registration on a given log: the registered fact,
/// or the duplicate-registration error if and only if the customer is already
/// registered, whatever the names.
pub open spec fn register_customer_outcome(
    log: Seq<EventModel>,
    customer_id: Seq<char>,
    first_name: Seq<char>,
    last_name: Seq<char>,
) -> Result<Seq<EventModel>, Error> {
    if spec_customer_registered(log, customer_id) {
        Err(Error::AlreadyRegisteredCustomer)
    } else {
        Ok(seq![EventModel::CustomerRegistered { customer_id, first_name, last_name }])
    }
}

/// The error that starting a rental meets on a given log, if any: the customer
/// must be registered, must hold no open rental, and the pool of the requested
/// type must be non-empty, checked in that order.
pub open spec fn start_rent_error(
    log: Seq<EventModel>,
    customer_id: Seq<char>,
    vehicle_type: VehicleType,
) -> Option<Error> {
    if !spec_customer_registered(log, customer_id) {
        Some(Error::CustomerNotFound)
    } else if spec_rental(log, customer_id) is Some {
        Some(Error::RentalInProgress)
    } else if spec_available_vehicles(log, vehicle_type).len() == 0 {
        Some(Error::NoAvailableVehicles)
    } else {
        None
    }
}

/// The outcome of starting a rental on a given log, with the timestamp that
/// would be stamped on the emitted event: the vehicle granted is the one most
/// recently entered into the pool.
pub open spec fn start_rent_outcome(
    log: Seq<EventModel>,
    customer_id: Seq<char>,
    vehicle_type: VehicleType,
    ts: Timestamp,
) -> Result<Seq<EventModel>, Error> {
    match start_rent_error(log, customer_id, vehicle_type) {
        Some(e) => Err(e),
        None => Ok(
            seq![
                EventModel::VehicleRented {
                    customer_id,
                    vehicle_id: spec_available_vehicles(log, vehicle_type).last(),
                    vehicle_type,
                    start_date: ts,
                },
            ],
        ),
    }
}

/// The outcome of ending a rental on a given log, with the timestamp that
/// would be stamped on the emitted event: the customer must hold an open
/// rental, and the returned fact names the rented vehicle and its type.
pub open spec fn end_rent_outcome(
    log: Seq<EventModel>,
    customer_id: Seq<char>,
    ts: Timestamp,
) -> Result<Seq<EventModel>, Error> {
    match spec_rental(log, customer_id) {
        Some((vehicle_id, vehicle_type)) => Ok(
            seq![
                EventModel::VehicleReturned {
                    customer_id,
                    vehicle_id,
                    vehicle_type,
                    returned_date: ts,
                },
            ],
        ),
        None => Err(Error::RentalNotFound),
    }
}

/// The command to register a vehicle under a plate with a type.
#[derive(Debug)]
pub struct RegisterVehicle {
    pub vehicle_id: PlateNumber,
    pub vehicle_type: VehicleType,
}

impl RegisterVehicle {
    /// The zero-valued state whose stream decides this command.
    pub fn state_query(&self) -> (s: VehicleRegistration)
        ensures
            s@ == (VehicleRegistrationModel { vehicle_id: self.vehicle_id@, registered: false }),
    {
        VehicleRegistration::new(self.vehicle_id.clone())
    }

    /// Decides the command: emits the added fact, or fails if the vehicle is
    /// already registered.
    pub fn process(&self, state: &VehicleRegistration) -> (r: Result<Vec<DomainEvent>, Error>)
        ensures
            state.registered ==> r == Err::<Vec<DomainEvent>, Error>(
                Error::AlreadyRegisteredVehicle,
            ),
            !state.registered ==> (r matches Ok(evs) && events_view(evs@)
                == seq![
                EventModel::VehicleAdded {
                    vehicle_id: self.vehicle_id@,
                    vehicle_type: self.vehicle_type,
                },
            ]),
    {
        if state.registered {
            return Err(Error::AlreadyRegisteredVehicle);
        }
        let mut events: Vec<DomainEvent> = Vec::new();
        events.push(
            DomainEvent::VehicleAdded {
                vehicle_id: self.vehicle_id.clone(),
                vehicle_type: self.vehicle_type,
            },
        );
        proof {
            assert(events_view(events@) =~= seq![
                EventModel::VehicleAdded {
                    vehicle_id: self.vehicle_id@,
                    vehicle_type: self.vehicle_type,
                },
            ]);
        }
        Ok(events)
    }
}

/// The command to register a customer under an identifier with a name.
#[derive(Debug)]
pub struct RegisterCustomer {
    pub customer_id: Email,
    pub first_name: String,
    pub last_name: String,
}

impl RegisterCustomer {
    /// The zero-valued state whose stream decides this command.
    pub fn state_query(&self) -> (s: CustomerRegistration)
        ensures
            s@ == (CustomerRegistrationModel { customer_id: self.customer_id@, registered: false }),
    {
        CustomerRegistration::new(self.customer_id.clone())
    }

    /// Decides the command: emits the registered fact, or fails if the
    /// customer is already registered, whatever the names given.
    pub fn process(&self, state: &CustomerRegistration) -> (r: Result<Vec<DomainEvent>, Error>)
        ensures
            state.registered ==> r == Err::<Vec<DomainEvent>, Error>(
                Error::AlreadyRegisteredCustomer,
            ),
            !state.registered ==> (r matches Ok(evs) && events_view(evs@)
                == seq![
                EventModel::CustomerRegistered {
                    customer_id: self.customer_id@,
                    first_name: self.first_name@,
                    last_name: self.last_name@,
                },
            ]),
    {
        if state.registered {
            return Err(Error::AlreadyRegisteredCustomer);
        }
        let mut events: Vec<DomainEvent> = Vec::new();
        events.push(
            DomainEvent::CustomerRegistered {
                customer_id: self.customer_id.clone(),
                first_name: self.first_name.clone(),
                last_name: self.last_name.clone(),
            },
        );
        proof {
            assert(events_view(events@) =~= seq![
                EventModel::CustomerRegistered {
                    customer_id: self.customer_id@,
                    first_name: self.first_name@,
                    last_name: self.last_name@,
                },
            ]);
        }
        Ok(events)
    }
}

/// The command to start a rental of some vehicle of a type for a customer.
#[derive(Debug)]
pub struct StartRent {
    pub customer_id: Email,
    pub vehicle_type: VehicleType,
}

impl StartRent {
    /// The zero-valued states whose combined stream decides this command: the
    /// customer's registration, the customer's rental status, and the
    /// requested type's availability pool.
    pub fn state_query(&self) -> (s: (
        CustomerRegistration,
        CustomerRentalStatus,
        VehicleAvailability,
    ))
        ensures
            s.0@ == (CustomerRegistrationModel { customer_id: self.customer_id@, registered: false }),
            s.1@ == (CustomerRentalStatusModel {
                customer_id: self.customer_id@,
                rented_vehicle_type: None,
                rented_vehicle_id: None,
            }),
            s.2@ == (VehicleAvailabilityModel {
                vehicle_type: self.vehicle_type,
                available_vehicles: Seq::empty(),
            }),
            s.0.inv() && s.1.inv() && s.2.inv(),
    {
        (
            CustomerRegistration::new(self.customer_id.clone()),
            CustomerRentalStatus::new(self.customer_id.clone()),
            VehicleAvailability::new(self.vehicle_type),
        )
    }

    /// Decides the command. The checks, in order: the customer is registered,
    /// the customer holds no open rental, the pool is non-empty. On success
    /// the rented fact names the vehicle most recently entered into the pool
    /// and stamps the clock's timestamp.
    pub fn process(
        &self,
        state: &(CustomerRegistration, CustomerRentalStatus, VehicleAvailability),
    ) -> (r: Result<Vec<DomainEvent>, Error>)
        ensures
            !state.0.registered ==> r == Err::<Vec<DomainEvent>, Error>(Error::CustomerNotFound),
            state.0.registered && state.1@.rented_vehicle_id is Some ==> r == Err::<
                Vec<DomainEvent>,
                Error,
            >(Error::RentalInProgress),
            state.0.registered && state.1@.rented_vehicle_id is None
                && state.2@.available_vehicles.len() == 0 ==> r == Err::<Vec<DomainEvent>, Error>(
                Error::NoAvailableVehicles,
            ),
            state.0.registered && state.1@.rented_vehicle_id is None
                && state.2@.available_vehicles.len() > 0 ==> (r matches Ok(evs)
                && exists|ts: Timestamp|
                events_view(evs@) == seq![
                    EventModel::VehicleRented {
                        customer_id: self.customer_id@,
                        vehicle_id: state.2@.available_vehicles.last(),
                        vehicle_type: self.vehicle_type,
                        start_date: ts,
                    },
                ]),
    {
        let (customer_registration, customer_rental_status, vehicle_availability) = state;
        if !customer_registration.registered {
            return Err(Error::CustomerNotFound);
        }
        if customer_rental_status.rented_vehicle_id.is_some() {
            return Err(Error::RentalInProgress);
        }
        if vehicle_availability.available_vehicles.len() == 0 {
            return Err(Error::NoAvailableVehicles);
        }
        let idx = vehicle_availability.available_vehicles.len() - 1;
        let vehicle = vehicle_availability.available_vehicles[idx].clone();
        let start_date = now_timestamp();
        let mut events: Vec<DomainEvent> = Vec::new();
        events.push(
            DomainEvent::VehicleRented {
                customer_id: self.customer_id.clone(),
                vehicle_id: vehicle,
                vehicle_type: self.vehicle_type,
                start_date,
            },
        );
        proof {
            assert(events_view(events@) =~= seq![
                EventModel::VehicleRented {
                    customer_id: self.customer_id@,
                    vehicle_id: state.2@.available_vehicles.last(),
                    vehicle_type: self.vehicle_type,
                    start_date: start_date,
                },
            ]);
        }
        Ok(events)
    }
}

/// The command to end a customer's open rental.
#[derive(Debug)]
pub struct EndRent {
    pub customer_id: Email,
}

impl EndRent {
    /// The zero-valued state whose stream decides this command.
    pub fn state_query(&self) -> (s: CustomerRentalStatus)
        ensures
            s@ == (CustomerRentalStatusModel {
                customer_id: self.customer_id@,
                rented_vehicle_type: None,
                rented_vehicle_id: None,
            }),
            s.inv(),
    {
        CustomerRentalStatus::new(self.customer_id.clone())
    }

    /// Decides the command: emits the returned fact naming the rented vehicle
    /// and its type, stamped with the clock's timestamp, or fails if the
    /// customer holds no open rental.
    pub fn process(&self, state: &CustomerRentalStatus) -> (r: Result<Vec<DomainEvent>, Error>)
        requires
            state.inv(),
        ensures
            state@.rented_vehicle_id is None ==> r == Err::<Vec<DomainEvent>, Error>(
                Error::RentalNotFound,
            ),
            state@.rented_vehicle_id is Some ==> (r matches Ok(evs) && exists|ts: Timestamp|
                events_view(evs@) == seq![
                    EventModel::VehicleReturned {
                        customer_id: self.customer_id@,
                        vehicle_id: state@.rented_vehicle_id.unwrap(),
                        vehicle_type: state@.rented_vehicle_type.unwrap(),
                        returned_date: ts,
                    },
                ]),
    {
        match (&state.rented_vehicle_id, &state.rented_vehicle_type) {
            (Some(rented_vehicle_id), Some(rented_vehicle_type)) => {
                let returned_date = now_timestamp();
                let mut events: Vec<DomainEvent> = Vec::new();
                events.push(
                    DomainEvent::VehicleReturned {
                        customer_id: self.customer_id.clone(),
                        vehicle_id: rented_vehicle_id.clone(),
                        vehicle_type: *rented_vehicle_type,
                        returned_date,
                    },
                );
                proof {
                    assert(events_view(events@) =~= seq![
                        EventModel::VehicleReturned {
                            customer_id: self.customer_id@,
                            vehicle_id: state@.rented_vehicle_id.unwrap(),
                            vehicle_type: state@.rented_vehicle_type.unwrap(),
                            returned_date: returned_date,
                        },
                    ]);
                }
                Ok(events)
            },
            _ => Err(Error::RentalNotFound),
        }
    }
}

} // verus!
