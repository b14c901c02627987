//! The event model: typed event variants tagged with the identifier fields
//! that participate in stream filtering, and the domain error taxonomy.

use vstd::prelude::*;

verus! {

/// A vehicle plate number, an opaque string identifier.
pub type PlateNumber = String;

/// A customer identifier, an opaque string identifier.
pub type Email = String;

/// A point in time, in milliseconds since the Unix epoch.
pub type Timestamp = i64;

/// The closed set of vehicle types.
#[derive(Debug, Clone, Copy, PartialEq, Eq, Structural)]
pub enum VehicleType {
    Car,
    PickUp,
    Van,
    Truck,
}

/// The canonical lowercase/snake string for a vehicle type, used both as an
/// identifier value and in projections.
pub open spec fn vehicle_type_name(vt: VehicleType) -> Seq<char> {
    match vt {
        VehicleType::Car => "car"@,
        VehicleType::PickUp => "pick_up"@,
        VehicleType::Van => "van"@,
        VehicleType::Truck => "truck"@,
    }
}

impl VehicleType {
    /// The canonical string identifier value of this vehicle type.
    pub fn into_identifier_value(self) -> (s: String)
        ensures
            s@ == vehicle_type_name(self),
    {
        match self {
            VehicleType::Car => "car".to_owned(),
            VehicleType::PickUp => "pick_up".to_owned(),
            VehicleType::Van => "van".to_owned(),
            VehicleType::Truck => "truck".to_owned(),
        }
    }
}

/// An immutable, append-only fact of the rental domain.
#[derive(Debug, PartialEq, Eq)]
pub enum DomainEvent {
    CustomerRegistered { customer_id: Email, first_name: String, last_name: String },
    VehicleAdded { vehicle_id: PlateNumber, vehicle_type: VehicleType },
    VehicleRented {
        customer_id: Email,
        vehicle_id: PlateNumber,
        vehicle_type: VehicleType,
        start_date: Timestamp,
    },
    VehicleReturned {
        customer_id: Email,
        vehicle_id: PlateNumber,
        vehicle_type: VehicleType,
        returned_date: Timestamp,
    },
}

/// The mathematical model of an event: the same variants over sequences of
/// characters instead of heap-allocated strings.
pub enum EventModel {
    CustomerRegistered { customer_id: Seq<char>, first_name: Seq<char>, last_name: Seq<char> },
    VehicleAdded { vehicle_id: Seq<char>, vehicle_type: VehicleType },
    VehicleRented {
        customer_id: Seq<char>,
        vehicle_id: Seq<char>,
        vehicle_type: VehicleType,
        start_date: Timestamp,
    },
    VehicleReturned {
        customer_id: Seq<char>,
        vehicle_id: Seq<char>,
        vehicle_type: VehicleType,
        returned_date: Timestamp,
    },
}

impl View for DomainEvent {
    type V = EventModel;

    open spec fn view(&self) -> EventModel {
        match self {
            DomainEvent::CustomerRegistered { customer_id, first_name, last_name } => {
                EventModel::CustomerRegistered {
                    customer_id: customer_id@,
                    first_name: first_name@,
                    last_name: last_name@,
                }
            },
            DomainEvent::VehicleAdded { vehicle_id, vehicle_type } => {
                EventModel::VehicleAdded { vehicle_id: vehicle_id@, vehicle_type: *vehicle_type }
            },
            DomainEvent::VehicleRented { customer_id, vehicle_id, vehicle_type, start_date } => {
                EventModel::VehicleRented {
                    customer_id: customer_id@,
                    vehicle_id: vehicle_id@,
                    vehicle_type: *vehicle_type,
                    start_date: *start_date,
                }
            },
            DomainEvent::VehicleReturned {
                customer_id,
                vehicle_id,
                vehicle_type,
                returned_date,
            } => {
                EventModel::VehicleReturned {
                    customer_id: customer_id@,
                    vehicle_id: vehicle_id@,
                    vehicle_type: *vehicle_type,
                    returned_date: *returned_date,
                }
            },
        }
    }
}

impl Clone for DomainEvent {
    fn clone(&self) -> (res: Self)
        ensures
            res == *self,
    {
        match self {
            DomainEvent::CustomerRegistered { customer_id, first_name, last_name } => {
                DomainEvent::CustomerRegistered {
                    customer_id: customer_id.clone(),
                    first_name: first_name.clone(),
                    last_name: last_name.clone(),
                }
            },
            DomainEvent::VehicleAdded { vehicle_id, vehicle_type } => {
                DomainEvent::VehicleAdded {
                    vehicle_id: vehicle_id.clone(),
                    vehicle_type: *vehicle_type,
                }
            },
            DomainEvent::VehicleRented { customer_id, vehicle_id, vehicle_type, start_date } => {
                DomainEvent::VehicleRented {
                    customer_id: customer_id.clone(),
                    vehicle_id: vehicle_id.clone(),
                    vehicle_type: *vehicle_type,
                    start_date: *start_date,
                }
            },
            DomainEvent::VehicleReturned {
                customer_id,
                vehicle_id,
                vehicle_type,
                returned_date,
            } => {
                DomainEvent::VehicleReturned {
                    customer_id: customer_id.clone(),
                    vehicle_id: vehicle_id.clone(),
                    vehicle_type: *vehicle_type,
                    returned_date: *returned_date,
                }
            },
        }
    }
}

/// The models of a sequence of events.
pub open spec fn events_view(s: Seq<DomainEvent>) -> Seq<EventModel> {
    s.map_values(|e: DomainEvent| e@)
}

/// The customer identifier field of an event, where the variant carries one.
pub open spec fn event_customer_id(e: EventModel) -> Option<Seq<char>> {
    match e {
        EventModel::CustomerRegistered { customer_id, .. } => Some(customer_id),
        EventModel::VehicleAdded { .. } => None,
        EventModel::VehicleRented { customer_id, .. } => Some(customer_id),
        EventModel::VehicleReturned { customer_id, .. } => Some(customer_id),
    }
}

/// The vehicle identifier field of an event, where the variant carries one.
pub open spec fn event_vehicle_id(e: EventModel) -> Option<Seq<char>> {
    match e {
        EventModel::CustomerRegistered { .. } => None,
        EventModel::VehicleAdded { vehicle_id, .. } => Some(vehicle_id),
        EventModel::VehicleRented { vehicle_id, .. } => Some(vehicle_id),
        EventModel::VehicleReturned { vehicle_id, .. } => Some(vehicle_id),
    }
}

/// The vehicle type identifier field of an event, where the variant carries one.
pub open spec fn event_vehicle_type(e: EventModel) -> Option<VehicleType> {
    match e {
        EventModel::CustomerRegistered { .. } => None,
        EventModel::VehicleAdded { vehicle_type, .. } => Some(vehicle_type),
        EventModel::VehicleRented { vehicle_type, .. } => Some(vehicle_type),
        EventModel::VehicleReturned { vehicle_type, .. } => Some(vehicle_type),
    }
}

/// A deterministic, caller-fixable validation outcome of a decision.
#[derive(Debug, Clone, Copy, PartialEq, Eq, Structural)]
pub enum Error {
    AlreadyRegisteredVehicle,
    AlreadyRegisteredCustomer,
    NoAvailableVehicles,
    RentalInProgress,
    CustomerNotFound,
    RentalNotFound,
}

impl Error {
    /// A human-readable message for this error.
    pub fn message(&self) -> (s: String)
        ensures
            s@ == error_message(*self),
    {
        match self {
            Error::AlreadyRegisteredVehicle => "Already Registered Vehicle".to_owned(),
            Error::AlreadyRegisteredCustomer => "Already Registered Customer".to_owned(),
            Error::NoAvailableVehicles => "No Available Vehicles".to_owned(),
            Error::RentalInProgress => "Rental In Progress".to_owned(),
            Error::CustomerNotFound => "Customer Not Found".to_owned(),
            Error::RentalNotFound => "Rental Not Found".to_owned(),
        }
    }
}

/// The message text of each domain error.
pub open spec fn error_message(e: Error) -> Seq<char> {
    match e {
        Error::AlreadyRegisteredVehicle => "Already Registered Vehicle"@,
        Error::AlreadyRegisteredCustomer => "Already Registered Customer"@,
        Error::NoAvailableVehicles => "No Available Vehicles"@,
        Error::RentalInProgress => "Rental In Progress"@,
        Error::CustomerNotFound => "Customer Not Found"@,
        Error::RentalNotFound => "Rental Not Found"@,
    }
}

} // verus!
