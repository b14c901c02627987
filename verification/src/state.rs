//! The aggregate state entities: transient values recomputed per command by
//! replaying the stream their query selects, and discarded after the decision.

use vstd::prelude::*;

use crate::domain::{DomainEvent, Email, EventModel, PlateNumber, VehicleType};
use crate::query::{
    customer_event_group, rent_event_group, vehicle_event_group, EventKinds, StreamFilter,
    StreamFilterModel, StreamQuery, StreamQueryModel,
};
use crate::store::StateQuery;

verus! {

/// The query selecting the registration facts about one customer.
pub open spec fn customer_registration_query(customer_id: Seq<char>) -> StreamQueryModel {
    StreamQueryModel {
        filters: seq![
            StreamFilterModel {
                kinds: customer_event_group(),
                customer_id: Some(customer_id),
                vehicle_id: None,
                vehicle_type: None,
            },
        ],
    }
}

/// The query selecting the registration facts about one vehicle.
pub open spec fn vehicle_registration_query(vehicle_id: Seq<char>) -> StreamQueryModel {
    StreamQueryModel {
        filters: seq![
            StreamFilterModel {
                kinds: vehicle_event_group(),
                customer_id: None,
                vehicle_id: Some(vehicle_id),
                vehicle_type: None,
            },
        ],
    }
}

/// The query selecting the rent facts about one vehicle type's pool.
pub open spec fn availability_query(vehicle_type: VehicleType) -> StreamQueryModel {
    StreamQueryModel {
        filters: seq![
            StreamFilterModel {
                kinds: rent_event_group(),
                customer_id: None,
                vehicle_id: None,
                vehicle_type: Some(vehicle_type),
            },
        ],
    }
}

/// The query selecting the rent facts about one customer.
pub open spec fn rental_status_query(customer_id: Seq<char>) -> StreamQueryModel {
    StreamQueryModel {
        filters: seq![
            StreamFilterModel {
                kinds: rent_event_group(),
                customer_id: Some(customer_id),
                vehicle_id: None,
                vehicle_type: None,
            },
        ],
    }
}

/// Whether one customer is registered.
#[derive(Debug)]
pub struct CustomerRegistration {
    pub customer_id: Email,
    pub registered: bool,
}

/// The model of a customer registration state.
#[verifier::ext_equal]
pub struct CustomerRegistrationModel {
    pub customer_id: Seq<char>,
    pub registered: bool,
}

impl View for CustomerRegistration {
    type V = CustomerRegistrationModel;

    open spec fn view(&self) -> CustomerRegistrationModel {
        CustomerRegistrationModel { customer_id: self.customer_id@, registered: self.registered }
    }
}

impl CustomerRegistration {
    /// The zero-valued state for one customer: not registered.
    pub fn new(customer_id: String) -> (r: CustomerRegistration)
        ensures
            r@ == (CustomerRegistrationModel { customer_id: customer_id@, registered: false }),
            r.inv(),
    {
        CustomerRegistration { customer_id, registered: false }
    }
}

/// The fold step of a customer registration: a registration fact flips the
/// flag to registered; no event flips it back.
pub open spec fn customer_registration_step(
    v: CustomerRegistrationModel,
    e: EventModel,
) -> CustomerRegistrationModel {
    match e {
        EventModel::CustomerRegistered { .. } => CustomerRegistrationModel {
            registered: true,
            ..v
        },
        _ => v,
    }
}

impl StateQuery for CustomerRegistration {
    open spec fn inv(&self) -> bool {
        true
    }

    open spec fn spec_query(&self) -> StreamQueryModel {
        customer_registration_query(self.customer_id@)
    }

    open spec fn step(v: CustomerRegistrationModel, e: EventModel) -> CustomerRegistrationModel {
        customer_registration_step(v, e)
    }

    fn query(&self) -> (q: StreamQuery) {
        let q = StreamQuery::single(
            StreamFilter {
                kinds: EventKinds::customer_event(),
                customer_id: Some(self.customer_id.clone()),
                vehicle_id: None,
                vehicle_type: None,
            },
        );
        proof {
            assert(q@ =~= self.spec_query());
        }
        q
    }

    fn mutate(&mut self, event: &DomainEvent) {
        match event {
            DomainEvent::CustomerRegistered { .. } => {
                self.registered = true;
            },
            _ => {},
        }
    }
}

/// Whether one vehicle is registered.
#[derive(Debug)]
pub struct VehicleRegistration {
    pub vehicle_id: PlateNumber,
    pub registered: bool,
}

/// The model of a vehicle registration state.
#[verifier::ext_equal]
pub struct VehicleRegistrationModel {
    pub vehicle_id: Seq<char>,
    pub registered: bool,
}

impl View for VehicleRegistration {
    type V = VehicleRegistrationModel;

    open spec fn view(&self) -> VehicleRegistrationModel {
        VehicleRegistrationModel { vehicle_id: self.vehicle_id@, registered: self.registered }
    }
}

impl VehicleRegistration {
    /// The zero-valued state for one vehicle: not registered.
    pub fn new(vehicle_id: PlateNumber) -> (r: VehicleRegistration)
        ensures
            r@ == (VehicleRegistrationModel { vehicle_id: vehicle_id@, registered: false }),
            r.inv(),
    {
        VehicleRegistration { vehicle_id, registered: false }
    }
}

/// The fold step of a vehicle registration: an added fact flips the flag to
/// registered; no event flips it back.
pub open spec fn vehicle_registration_step(
    v: VehicleRegistrationModel,
    e: EventModel,
) -> VehicleRegistrationModel {
    match e {
        EventModel::VehicleAdded { .. } => VehicleRegistrationModel { registered: true, ..v },
        _ => v,
    }
}

impl StateQuery for VehicleRegistration {
    open spec fn inv(&self) -> bool {
        true
    }

    open spec fn spec_query(&self) -> StreamQueryModel {
        vehicle_registration_query(self.vehicle_id@)
    }

    open spec fn step(v: VehicleRegistrationModel, e: EventModel) -> VehicleRegistrationModel {
        vehicle_registration_step(v, e)
    }

    fn query(&self) -> (q: StreamQuery) {
        let q = StreamQuery::single(
            StreamFilter {
                kinds: EventKinds::vehicle_event(),
                customer_id: None,
                vehicle_id: Some(self.vehicle_id.clone()),
                vehicle_type: None,
            },
        );
        proof {
            assert(q@ =~= self.spec_query());
        }
        q
    }

    fn mutate(&mut self, event: &DomainEvent) {
        match event {
            DomainEvent::VehicleAdded { .. } => {
                self.registered = true;
            },
            _ => {},
        }
    }
}

/// Whether a sequence of identifiers contains `id`.
pub open spec fn seq_contains_id(s: Seq<Seq<char>>, id: Seq<char>) -> bool {
    exists|i: int| 0 <= i < s.len() && s[i] == id
}

/// `s` with `id` appended, unless already present.
pub open spec fn insert_id(s: Seq<Seq<char>>, id: Seq<char>) -> Seq<Seq<char>> {
    if seq_contains_id(s, id) {
        s
    } else {
        s.push(id)
    }
}

/// `s` with every occurrence of `id` removed, order preserved.
pub open spec fn remove_id(s: Seq<Seq<char>>, id: Seq<char>) -> Seq<Seq<char>>
    decreases s.len(),
{
    if s.len() == 0 {
        Seq::empty()
    } else {
        let prefix = remove_id(s.drop_last(), id);
        if s.last() == id {
            prefix
        } else {
            prefix.push(s.last())
        }
    }
}

/// Whether a sequence of identifiers holds no identifier twice.
pub open spec fn ids_unique(s: Seq<Seq<char>>) -> bool {
    forall|i: int, j: int| 0 <= i < j < s.len() ==> s[i] != s[j]
}

/// Every identifier left by a removal was present before, and differs from the
/// removed one.
pub proof fn lemma_remove_id_contains(s: Seq<Seq<char>>, id: Seq<char>, x: Seq<char>)
    ensures
        seq_contains_id(remove_id(s, id), x) <==> (seq_contains_id(s, x) && x != id),
    decreases s.len(),
{
    if s.len() > 0 {
        lemma_remove_id_contains(s.drop_last(), id, x);
        let r = remove_id(s, id);
        let prefix = remove_id(s.drop_last(), id);
        if seq_contains_id(s, x) && x != id {
            let i = choose|i: int| 0 <= i < s.len() && s[i] == x;
            if i < s.len() - 1 {
                assert(s.drop_last()[i] == x);
                let j = choose|j: int| 0 <= j < prefix.len() && prefix[j] == x;
                if s.last() == id {
                    assert(r[j] == x);
                } else {
                    assert(prefix.push(s.last())[j] == x);
                }
            } else {
                assert(s.last() == x);
                assert(r[prefix.len() as int] == x);
            }
        }
        if seq_contains_id(r, x) {
            let i = choose|i: int| 0 <= i < r.len() && r[i] == x;
            if s.last() == id {
                assert(prefix[i] == x);
                let j = choose|j: int| 0 <= j < s.drop_last().len() && s.drop_last()[j] == x;
                assert(s[j] == x);
            } else {
                if i < r.len() - 1 {
                    assert(prefix[i] == x);
                    let j = choose|j: int| 0 <= j < s.drop_last().len() && s.drop_last()[j] == x;
                    assert(s[j] == x);
                } else {
                    assert(r[i] == s.last());
                    assert(s[s.len() - 1] == x);
                }
            }
        }
    }
}

/// Removal keeps the identifiers unique.
pub proof fn lemma_remove_id_unique(s: Seq<Seq<char>>, id: Seq<char>)
    requires
        ids_unique(s),
    ensures
        ids_unique(remove_id(s, id)),
    decreases s.len(),
{
    if s.len() > 0 {
        assert forall|i: int, j: int|
            0 <= i < j < s.drop_last().len() implies s.drop_last()[i] != s.drop_last()[j] by {
            assert(s[i] == s.drop_last()[i]);
            assert(s[j] == s.drop_last()[j]);
        }
        lemma_remove_id_unique(s.drop_last(), id);
        let prefix = remove_id(s.drop_last(), id);
        if s.last() != id {
            assert forall|i: int, j: int|
                0 <= i < j < prefix.push(s.last()).len() implies prefix.push(s.last())[i]
                != prefix.push(s.last())[j] by {
                if j == prefix.len() {
                    lemma_remove_id_contains(s.drop_last(), id, prefix[i]);
                    let k = choose|k: int|
                        0 <= k < s.drop_last().len() && s.drop_last()[k] == prefix[i];
                    assert(s[k] == prefix[i]);
                    assert(s[s.len() - 1] == s.last());
                }
            }
        }
    }
}

/// The set of vehicles of one type available for rent: a plate is present if
/// and only if it was added and is not currently rented.
#[derive(Debug)]
pub struct VehicleAvailability {
    pub vehicle_type: VehicleType,
    pub available_vehicles: Vec<PlateNumber>,
}

/// The model of an availability state.
#[verifier::ext_equal]
pub struct VehicleAvailabilityModel {
    pub vehicle_type: VehicleType,
    pub available_vehicles: Seq<Seq<char>>,
}

impl View for VehicleAvailability {
    type V = VehicleAvailabilityModel;

    open spec fn view(&self) -> VehicleAvailabilityModel {
        VehicleAvailabilityModel {
            vehicle_type: self.vehicle_type,
            available_vehicles: self.available_vehicles@.map_values(|p: PlateNumber| p@),
        }
    }
}

impl VehicleAvailability {
    /// The zero-valued state for one vehicle type: an empty pool.
    pub fn new(vehicle_type: VehicleType) -> (r: VehicleAvailability)
        ensures
            r@ == (VehicleAvailabilityModel {
                vehicle_type,
                available_vehicles: Seq::<Seq<char>>::empty(),
            }),
            r.inv(),
    {
        let r = VehicleAvailability { vehicle_type, available_vehicles: Vec::new() };
        proof {
            assert(r@.available_vehicles =~= Seq::<Seq<char>>::empty());
        }
        r
    }

    /// Whether the pool holds the given plate.
    pub fn contains(&self, vehicle_id: &PlateNumber) -> (b: bool)
        ensures
            b == seq_contains_id(self@.available_vehicles, vehicle_id@),
    {
        let mut i: usize = 0;
        while i < self.available_vehicles.len()
            invariant
                0 <= i <= self.available_vehicles.len(),
                self@.available_vehicles.len() == self.available_vehicles@.len(),
                forall|j: int|
                    0 <= j < i ==> #[trigger] self@.available_vehicles[j] != vehicle_id@,
            decreases self.available_vehicles.len() - i,
        {
            if *vehicle_id == self.available_vehicles[i] {
                proof {
                    assert(self@.available_vehicles[i as int] == vehicle_id@);
                }
                return true;
            }
            i += 1;
        }
        false
    }
}

/// The fold step of an availability pool: an added or returned vehicle enters
/// the pool unless already present, a rented vehicle leaves it.
pub open spec fn availability_step(
    v: VehicleAvailabilityModel,
    e: EventModel,
) -> VehicleAvailabilityModel {
    match e {
        EventModel::VehicleAdded { vehicle_id, .. } => VehicleAvailabilityModel {
            available_vehicles: insert_id(v.available_vehicles, vehicle_id),
            ..v
        },
        EventModel::VehicleRented { vehicle_id, .. } => VehicleAvailabilityModel {
            available_vehicles: remove_id(v.available_vehicles, vehicle_id),
            ..v
        },
        EventModel::VehicleReturned { vehicle_id, .. } => VehicleAvailabilityModel {
            available_vehicles: insert_id(v.available_vehicles, vehicle_id),
            ..v
        },
        _ => v,
    }
}

impl StateQuery for VehicleAvailability {
    /// The pool never holds a plate twice.
    open spec fn inv(&self) -> bool {
        ids_unique(self@.available_vehicles)
    }

    open spec fn spec_query(&self) -> StreamQueryModel {
        availability_query(self.vehicle_type)
    }

    open spec fn step(v: VehicleAvailabilityModel, e: EventModel) -> VehicleAvailabilityModel {
        availability_step(v, e)
    }

    fn query(&self) -> (q: StreamQuery) {
        let q = StreamQuery::single(
            StreamFilter {
                kinds: EventKinds::rent_event(),
                customer_id: None,
                vehicle_id: None,
                vehicle_type: Some(self.vehicle_type),
            },
        );
        proof {
            assert(q@ =~= self.spec_query());
        }
        q
    }

    fn mutate(&mut self, event: &DomainEvent) {
        match event {
            DomainEvent::VehicleAdded { vehicle_id, .. } => {
                self.insert_vehicle(vehicle_id);
            },
            DomainEvent::VehicleRented { vehicle_id, .. } => {
                self.remove_vehicle(vehicle_id);
            },
            DomainEvent::VehicleReturned { vehicle_id, .. } => {
                self.insert_vehicle(vehicle_id);
            },
            _ => {},
        }
    }
}

impl VehicleAvailability {
    /// Puts a plate into the pool, unless already present.
    fn insert_vehicle(&mut self, vehicle_id: &PlateNumber)
        requires
            old(self).inv(),
        ensures
            final(self).inv(),
            final(self)@ == (VehicleAvailabilityModel {
                available_vehicles: insert_id(old(self)@.available_vehicles, vehicle_id@),
                ..old(self)@
            }),
            final(self).vehicle_type == old(self).vehicle_type,
    {
        if !self.contains(vehicle_id) {
            let ghost prior = self@.available_vehicles;
            self.available_vehicles.push(vehicle_id.clone());
            proof {
                assert(self@.available_vehicles =~= prior.push(vehicle_id@));
                assert forall|i: int, j: int|
                    0 <= i < j < self@.available_vehicles.len()
                    implies self@.available_vehicles[i] != self@.available_vehicles[j] by {
                    if j == prior.len() {
                        assert(!seq_contains_id(prior, vehicle_id@));
                        assert(prior[i] != vehicle_id@);
                    }
                }
            }
        }
    }

    /// Takes every occurrence of a plate out of the pool.
    fn remove_vehicle(&mut self, vehicle_id: &PlateNumber)
        requires
            old(self).inv(),
        ensures
            final(self).inv(),
            final(self)@ == (VehicleAvailabilityModel {
                available_vehicles: remove_id(old(self)@.available_vehicles, vehicle_id@),
                ..old(self)@
            }),
            final(self).vehicle_type == old(self).vehicle_type,
    {
        let ghost prior = self@.available_vehicles;
        let mut kept: Vec<PlateNumber> = Vec::new();
        let mut i: usize = 0;
        while i < self.available_vehicles.len()
            invariant
                0 <= i <= self.available_vehicles.len(),
                prior == self@.available_vehicles,
                prior.len() == self.available_vehicles@.len(),
                kept@.map_values(|p: PlateNumber| p@) == remove_id(prior.take(i as int), vehicle_id@),
            decreases self.available_vehicles.len() - i,
        {
            proof {
                assert(prior.take(i as int + 1).drop_last() =~= prior.take(i as int));
                assert(prior.take(i as int + 1).last() == prior[i as int]);
            }
            if !(self.available_vehicles[i] == *vehicle_id) {
                let ghost kept_prior = kept@;
                kept.push(self.available_vehicles[i].clone());
                proof {
                    assert(kept@.map_values(|p: PlateNumber| p@) =~= kept_prior.map_values(
                        |p: PlateNumber| p@,
                    ).push(prior[i as int]));
                }
            }
            i += 1;
        }
        proof {
            assert(prior.take(prior.len() as int) =~= prior);
            lemma_remove_id_unique(prior, vehicle_id@);
        }
        self.available_vehicles = kept;
    }
}

/// The open rental of one customer: the rented vehicle and its type are both
/// set while a rental is open, and both unset otherwise.
#[derive(Debug)]
pub struct CustomerRentalStatus {
    pub customer_id: Email,
    pub rented_vehicle_type: Option<VehicleType>,
    pub rented_vehicle_id: Option<PlateNumber>,
}

/// The model of a rental status state.
#[verifier::ext_equal]
pub struct CustomerRentalStatusModel {
    pub customer_id: Seq<char>,
    pub rented_vehicle_type: Option<VehicleType>,
    pub rented_vehicle_id: Option<Seq<char>>,
}

impl View for CustomerRentalStatus {
    type V = CustomerRentalStatusModel;

    open spec fn view(&self) -> CustomerRentalStatusModel {
        CustomerRentalStatusModel {
            customer_id: self.customer_id@,
            rented_vehicle_type: self.rented_vehicle_type,
            rented_vehicle_id: match self.rented_vehicle_id {
                Some(ref v) => Some(v@),
                None => None,
            },
        }
    }
}

impl CustomerRentalStatus {
    /// The zero-valued state for one customer: no open rental.
    pub fn new(customer_id: Email) -> (r: CustomerRentalStatus)
        ensures
            r@ == (CustomerRentalStatusModel {
                customer_id: customer_id@,
                rented_vehicle_type: None,
                rented_vehicle_id: None,
            }),
            r.inv(),
    {
        CustomerRentalStatus { customer_id, rented_vehicle_type: None, rented_vehicle_id: None }
    }
}

/// The fold step of a rental status: a rented fact opens the rental with the
/// vehicle and its type, a returned fact closes it.
pub open spec fn rental_status_step(
    v: CustomerRentalStatusModel,
    e: EventModel,
) -> CustomerRentalStatusModel {
    match e {
        EventModel::VehicleRented { vehicle_id, vehicle_type, .. } => CustomerRentalStatusModel {
            rented_vehicle_type: Some(vehicle_type),
            rented_vehicle_id: Some(vehicle_id),
            ..v
        },
        EventModel::VehicleReturned { .. } => CustomerRentalStatusModel {
            rented_vehicle_type: None,
            rented_vehicle_id: None,
            ..v
        },
        _ => v,
    }
}

impl StateQuery for CustomerRentalStatus {
    /// The vehicle and its type are both set or both unset.
    open spec fn inv(&self) -> bool {
        self@.rented_vehicle_id is Some <==> self@.rented_vehicle_type is Some
    }

    open spec fn spec_query(&self) -> StreamQueryModel {
        rental_status_query(self.customer_id@)
    }

    open spec fn step(v: CustomerRentalStatusModel, e: EventModel) -> CustomerRentalStatusModel {
        rental_status_step(v, e)
    }

    fn query(&self) -> (q: StreamQuery) {
        let q = StreamQuery::single(
            StreamFilter {
                kinds: EventKinds::rent_event(),
                customer_id: Some(self.customer_id.clone()),
                vehicle_id: None,
                vehicle_type: None,
            },
        );
        proof {
            assert(q@ =~= self.spec_query());
        }
        q
    }

    fn mutate(&mut self, event: &DomainEvent) {
        match event {
            DomainEvent::VehicleRented { vehicle_id, vehicle_type, .. } => {
                self.rented_vehicle_id = Some(vehicle_id.clone());
                self.rented_vehicle_type = Some(*vehicle_type);
            },
            DomainEvent::VehicleReturned { .. } => {
                self.rented_vehicle_id = None;
                self.rented_vehicle_type = None;
            },
            _ => {},
        }
    }
}

} // verus!
