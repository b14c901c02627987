//! The application: executes a command by hydrating the command's state from
//! the event log, deciding, and appending the emitted events under the
//! optimistic-concurrency check against the version observed at hydration.

use vstd::prelude::*;

use crate::decision::{
    end_rent_outcome, register_customer_outcome, register_vehicle_outcome, spec_rental,
    start_rent_error, start_rent_outcome, EndRent, RegisterCustomer, RegisterVehicle, StartRent,
};
use crate::domain::{events_view, EventModel, Timestamp};
use crate::store::{hydrate, ApplicationError, EventLog, StateQuery};

verus! {

/// The command executor over the event log.
#[derive(Debug)]
pub struct Application {
    pub log: EventLog,
}

impl View for Application {
    type V = Seq<EventModel>;

    open spec fn view(&self) -> Seq<EventModel> {
        self.log@
    }
}

impl Application {
    /// An application over an empty event log.
    pub fn new() -> (r: Application)
        ensures
            r@ == Seq::<EventModel>::empty(),
    {
        Application { log: EventLog::new() }
    }

    /// Executes a vehicle registration: appends the added fact, or surfaces
    /// the duplicate-registration error, leaving the log unchanged.
    pub fn register_vehicle(&mut self, command: RegisterVehicle) -> (r: Result<
        (),
        ApplicationError,
    >)
        ensures
            ({
                match register_vehicle_outcome(
                    old(self)@,
                    command.vehicle_id@,
                    command.vehicle_type,
                ) {
                    Ok(es) => r == Ok::<(), ApplicationError>(()) && final(self)@ == old(self)@
                        + es,
                    Err(e) => r == Err::<(), ApplicationError>(ApplicationError::Domain(e))
                        && final(self)@ == old(self)@,
                }
            }),
    {
        let state_query = command.state_query();
        let (state, version) = hydrate(state_query, &self.log);
        let events = match command.process(&state) {
            Ok(events) => events,
            Err(e) => {
                return Err(ApplicationError::Domain(e));
            },
        };
        let query = state.query();
        match self.log.append(&query, version, events) {
            Ok(()) => Ok(()),
            Err(conflict) => {
                // The log cannot have moved between reading the version and
                // appending, so the optimistic check cannot fail here.
                proof {
                    assert(false);
                }
                Err(conflict)
            },
        }
    }

    /// Executes a customer registration: appends the registered fact, or
    /// surfaces the duplicate-registration error, leaving the log unchanged.
    pub fn register_customer(&mut self, command: RegisterCustomer) -> (r: Result<
        (),
        ApplicationError,
    >)
        ensures
            ({
                match register_customer_outcome(
                    old(self)@,
                    command.customer_id@,
                    command.first_name@,
                    command.last_name@,
                ) {
                    Ok(es) => r == Ok::<(), ApplicationError>(()) && final(self)@ == old(self)@
                        + es,
                    Err(e) => r == Err::<(), ApplicationError>(ApplicationError::Domain(e))
                        && final(self)@ == old(self)@,
                }
            }),
    {
        let state_query = command.state_query();
        let (state, version) = hydrate(state_query, &self.log);
        let events = match command.process(&state) {
            Ok(events) => events,
            Err(e) => {
                return Err(ApplicationError::Domain(e));
            },
        };
        let query = state.query();
        match self.log.append(&query, version, events) {
            Ok(()) => Ok(()),
            Err(conflict) => {
                // The log cannot have moved between reading the version and
                // appending, so the optimistic check cannot fail here.
                proof {
                    assert(false);
                }
                Err(conflict)
            },
        }
    }

    /// Executes the start of a rental: appends the rented fact stamped with
    /// the clock's timestamp, or surfaces the domain error, leaving the log
    /// unchanged. The stream validating the append is the union of the three
    /// hydrated streams.
    pub fn start_rent(&mut self, command: StartRent) -> (r: Result<(), ApplicationError>)
        ensures
            ({
                match start_rent_error(old(self)@, command.customer_id@, command.vehicle_type) {
                    Some(e) => r == Err::<(), ApplicationError>(ApplicationError::Domain(e))
                        && final(self)@ == old(self)@,
                    None => r == Ok::<(), ApplicationError>(()) && exists|ts: Timestamp|
                        final(self)@ == old(self)@ + start_rent_outcome(
                            old(self)@,
                            command.customer_id@,
                            command.vehicle_type,
                            ts,
                        ).unwrap(),
                }
            }),
    {
        let (q0, q1, q2) = command.state_query();
        let (registration, _v0) = hydrate(q0, &self.log);
        let (status, _v1) = hydrate(q1, &self.log);
        let (availability, _v2) = hydrate(q2, &self.log);
        let union = registration.query().union(&status.query()).union(&availability.query());
        let version = self.log.current_version(&union);
        let state = (registration, status, availability);
        let events = match command.process(&state) {
            Ok(events) => events,
            Err(e) => {
                return Err(ApplicationError::Domain(e));
            },
        };
        let ghost ts = choose|ts: Timestamp|
            events_view(events@) == seq![
                EventModel::VehicleRented {
                    customer_id: command.customer_id@,
                    vehicle_id: state.2@.available_vehicles.last(),
                    vehicle_type: command.vehicle_type,
                    start_date: ts,
                },
            ];
        match self.log.append(&union, version, events) {
            Ok(()) => {
                proof {
                    assert(self@ == old(self)@ + start_rent_outcome(
                        old(self)@,
                        command.customer_id@,
                        command.vehicle_type,
                        ts,
                    ).unwrap());
                }
                Ok(())
            },
            Err(conflict) => {
                // The log cannot have moved between reading the version and
                // appending, so the optimistic check cannot fail here.
                proof {
                    assert(false);
                }
                Err(conflict)
            },
        }
    }

    /// Executes the end of a rental: appends the returned fact stamped with
    /// the clock's timestamp, or surfaces the no-open-rental error, leaving
    /// the log unchanged.
    pub fn end_rent(&mut self, command: EndRent) -> (r: Result<(), ApplicationError>)
        ensures
            spec_rental(old(self)@, command.customer_id@) is None ==> r == Err::<
                (),
                ApplicationError,
            >(ApplicationError::Domain(crate::domain::Error::RentalNotFound)) && final(self)@ == old(
                self,
            )@,
            spec_rental(old(self)@, command.customer_id@) is Some ==> r == Ok::<
                (),
                ApplicationError,
            >(()) && exists|ts: Timestamp|
                final(self)@ == old(self)@ + end_rent_outcome(
                    old(self)@,
                    command.customer_id@,
                    ts,
                ).unwrap(),
    {
        let state_query = command.state_query();
        let (state, version) = hydrate(state_query, &self.log);
        let events = match command.process(&state) {
            Ok(events) => events,
            Err(e) => {
                return Err(ApplicationError::Domain(e));
            },
        };
        let ghost ts = choose|ts: Timestamp|
            events_view(events@) == seq![
                EventModel::VehicleReturned {
                    customer_id: command.customer_id@,
                    vehicle_id: state@.rented_vehicle_id.unwrap(),
                    vehicle_type: state@.rented_vehicle_type.unwrap(),
                    returned_date: ts,
                },
            ];
        let query = state.query();
        match self.log.append(&query, version, events) {
            Ok(()) => {
                proof {
                    assert(self@ == old(self)@ + end_rent_outcome(
                        old(self)@,
                        command.customer_id@,
                        ts,
                    ).unwrap());
                }
                Ok(())
            },
            Err(conflict) => {
                // The log cannot have moved between reading the version and
                // appending, so the optimistic check cannot fail here.
                proof {
                    assert(false);
                }
                Err(conflict)
            },
        }
    }
}

} // verus!
