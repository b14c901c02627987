//! The read-model projection: query-optimized tables derived from the event
//! log by per-event-type handlers. Each handler is an upsert keyed by the
//! table's primary key, idempotent under at-least-once re-delivery: a
//! duplicate insert is a benign no-op, and a returned-vehicle update that
//! finds no open rental row is a no-op rather than an error.

use vstd::prelude::*;

use crate::domain::{
    vehicle_type_name, DomainEvent, Email, EventModel, PlateNumber, Timestamp,
};
use crate::query::{query_matches, StreamQuery};

verus! {

/// A row of the customer table, keyed by the customer identifier.
#[derive(Debug)]
pub struct CustomerRow {
    pub customer_id: Email,
    pub first_name: String,
    pub last_name: String,
}

/// The model of a customer row.
#[verifier::ext_equal]
pub struct CustomerRowModel {
    pub customer_id: Seq<char>,
    pub first_name: Seq<char>,
    pub last_name: Seq<char>,
}

impl View for CustomerRow {
    type V = CustomerRowModel;

    open spec fn view(&self) -> CustomerRowModel {
        CustomerRowModel {
            customer_id: self.customer_id@,
            first_name: self.first_name@,
            last_name: self.last_name@,
        }
    }
}

/// A row of the vehicle table, keyed by the plate; the vehicle type is stored
/// in its canonical string form.
#[derive(Debug)]
pub struct VehicleRow {
    pub vehicle_id: PlateNumber,
    pub vehicle_type: String,
}

/// The model of a vehicle row.
#[verifier::ext_equal]
pub struct VehicleRowModel {
    pub vehicle_id: Seq<char>,
    pub vehicle_type: Seq<char>,
}

impl View for VehicleRow {
    type V = VehicleRowModel;

    open spec fn view(&self) -> VehicleRowModel {
        VehicleRowModel { vehicle_id: self.vehicle_id@, vehicle_type: self.vehicle_type@ }
    }
}

/// A row of the rent table, keyed by customer and plate; an open rental has no
/// end date yet.
#[derive(Debug)]
pub struct RentRow {
    pub customer_id: Email,
    pub vehicle_id: PlateNumber,
    pub start_date: Timestamp,
    pub end_date: Option<Timestamp>,
}

/// The model of a rent row.
#[verifier::ext_equal]
pub struct RentRowModel {
    pub customer_id: Seq<char>,
    pub vehicle_id: Seq<char>,
    pub start_date: Timestamp,
    pub end_date: Option<Timestamp>,
}

impl View for RentRow {
    type V = RentRowModel;

    open spec fn view(&self) -> RentRowModel {
        RentRowModel {
            customer_id: self.customer_id@,
            vehicle_id: self.vehicle_id@,
            start_date: self.start_date,
            end_date: self.end_date,
        }
    }
}

/// The key of a customer row.
pub open spec fn customer_key() -> spec_fn(CustomerRowModel) -> Seq<char> {
    |r: CustomerRowModel| r.customer_id
}

/// The key of a vehicle row.
pub open spec fn vehicle_key() -> spec_fn(VehicleRowModel) -> Seq<char> {
    |r: VehicleRowModel| r.vehicle_id
}

/// The key of a rent row.
pub open spec fn rent_key() -> spec_fn(RentRowModel) -> (Seq<char>, Seq<char>) {
    |r: RentRowModel| (r.customer_id, r.vehicle_id)
}

/// The table that a sequence of rows holds: each row under its key, a later
/// row shadowing an earlier one with the same key.
pub open spec fn table_of<K, R>(rows: Seq<R>, key: spec_fn(R) -> K) -> Map<K, R>
    decreases rows.len(),
{
    if rows.len() == 0 {
        Map::empty()
    } else {
        table_of(rows.drop_last(), key).insert(key(rows.last()), rows.last())
    }
}

/// Whether no two rows share a key.
pub open spec fn keys_unique<K, R>(rows: Seq<R>, key: spec_fn(R) -> K) -> bool {
    forall|i: int, j: int| 0 <= i < j < rows.len() ==> key(rows[i]) != key(rows[j])
}

/// A key is in the table exactly when some row carries it.
pub proof fn lemma_table_contains<K, R>(rows: Seq<R>, key: spec_fn(R) -> K, k: K)
    ensures
        table_of(rows, key).contains_key(k) <==> exists|i: int|
            0 <= i < rows.len() && key(#[trigger] rows[i]) == k,
    decreases rows.len(),
{
    if rows.len() > 0 {
        lemma_table_contains(rows.drop_last(), key, k);
        if exists|i: int| 0 <= i < rows.drop_last().len() && key(#[trigger] rows.drop_last()[i])
            == k {
            let i = choose|i: int|
                0 <= i < rows.drop_last().len() && key(#[trigger] rows.drop_last()[i]) == k;
            assert(rows[i] == rows.drop_last()[i]);
        }
        if exists|i: int| 0 <= i < rows.len() && key(#[trigger] rows[i]) == k {
            let i = choose|i: int| 0 <= i < rows.len() && key(#[trigger] rows[i]) == k;
            if i < rows.len() - 1 {
                assert(rows.drop_last()[i] == rows[i]);
            } else {
                assert(rows.last() == rows[i]);
            }
        }
    }
}

/// When no two rows share a key, each row is the table's entry under its key.
pub proof fn lemma_table_at_row<K, R>(rows: Seq<R>, key: spec_fn(R) -> K, i: int)
    requires
        keys_unique(rows, key),
        0 <= i < rows.len(),
    ensures
        table_of(rows, key).contains_key(key(rows[i])),
        table_of(rows, key)[key(rows[i])] == rows[i],
    decreases rows.len(),
{
    if i == rows.len() - 1 {
        assert(rows.last() == rows[i]);
    } else {
        assert forall|a: int, b: int|
            0 <= a < b < rows.drop_last().len() implies key(rows.drop_last()[a]) != key(
            rows.drop_last()[b],
        ) by {
            assert(rows.drop_last()[a] == rows[a]);
            assert(rows.drop_last()[b] == rows[b]);
        }
        lemma_table_at_row(rows.drop_last(), key, i);
        assert(rows.drop_last()[i] == rows[i]);
        assert(rows.last() == rows[rows.len() - 1]);
        assert(key(rows[i]) != key(rows[rows.len() - 1]));
    }
}

/// Appending a fresh row extends the table under the row's key.
pub proof fn lemma_table_push<K, R>(rows: Seq<R>, key: spec_fn(R) -> K, r: R)
    ensures
        table_of(rows.push(r), key) == table_of(rows, key).insert(key(r), r),
{
    assert(rows.push(r).drop_last() =~= rows);
    assert(rows.push(r).last() == r);
}

/// Replacing the one row that carries a key updates the table at that key.
pub proof fn lemma_table_update<K, R>(rows: Seq<R>, key: spec_fn(R) -> K, i: int, r: R)
    requires
        keys_unique(rows, key),
        0 <= i < rows.len(),
        key(r) == key(rows[i]),
    ensures
        table_of(rows.update(i, r), key) == table_of(rows, key).insert(key(r), r),
    decreases rows.len(),
{
    let updated = rows.update(i, r);
    if i == rows.len() - 1 {
        assert(updated.drop_last() =~= rows.drop_last());
        assert(updated.last() == r);
        assert(rows.last() == rows[i]);
        assert(table_of(updated, key) =~= table_of(rows, key).insert(key(r), r));
    } else {
        assert forall|a: int, b: int|
            0 <= a < b < rows.drop_last().len() implies key(rows.drop_last()[a]) != key(
            rows.drop_last()[b],
        ) by {
            assert(rows.drop_last()[a] == rows[a]);
            assert(rows.drop_last()[b] == rows[b]);
        }
        assert(updated.drop_last() =~= rows.drop_last().update(i, r));
        assert(updated.last() == rows.last());
        lemma_table_update(rows.drop_last(), key, i, r);
        assert(rows.last() == rows[rows.len() - 1]);
        assert(rows.drop_last()[i] == rows[i]);
        assert(key(r) != key(rows.last()));
        assert(table_of(updated, key) =~= table_of(rows, key).insert(key(r), r));
    }
}

/// The three read-optimized tables kept by the projection.
#[verifier::ext_equal]
pub struct ReadModelTables {
    pub customers: Map<Seq<char>, CustomerRowModel>,
    pub vehicles: Map<Seq<char>, VehicleRowModel>,
    pub rents: Map<(Seq<char>, Seq<char>), RentRowModel>,
}

/// The table state after one event: an insert of the event's row unless its
/// key is already present, and for a returned vehicle the closing of the open
/// rental row, if one is open.
pub open spec fn spec_handle(t: ReadModelTables, e: EventModel) -> ReadModelTables {
    match e {
        EventModel::CustomerRegistered { customer_id, first_name, last_name } => {
            if t.customers.contains_key(customer_id) {
                t
            } else {
                ReadModelTables {
                    customers: t.customers.insert(
                        customer_id,
                        CustomerRowModel { customer_id, first_name, last_name },
                    ),
                    ..t
                }
            }
        },
        EventModel::VehicleAdded { vehicle_id, vehicle_type } => {
            if t.vehicles.contains_key(vehicle_id) {
                t
            } else {
                ReadModelTables {
                    vehicles: t.vehicles.insert(
                        vehicle_id,
                        VehicleRowModel { vehicle_id, vehicle_type: vehicle_type_name(vehicle_type) },
                    ),
                    ..t
                }
            }
        },
        EventModel::VehicleRented { customer_id, vehicle_id, start_date, .. } => {
            if t.rents.contains_key((customer_id, vehicle_id)) {
                t
            } else {
                ReadModelTables {
                    rents: t.rents.insert(
                        (customer_id, vehicle_id),
                        RentRowModel { customer_id, vehicle_id, start_date, end_date: None },
                    ),
                    ..t
                }
            }
        },
        EventModel::VehicleReturned { customer_id, vehicle_id, returned_date, .. } => {
            ReadModelTables {
                rents: close_rent_table(t.rents, customer_id, vehicle_id, returned_date),
                ..t
            }
        },
    }
}

/// The rent table after a returned vehicle: the open rental row under the key
/// gets its end date; a missing or already closed row leaves the table as it
/// is.
pub open spec fn close_rent_table(
    rents: Map<(Seq<char>, Seq<char>), RentRowModel>,
    customer_id: Seq<char>,
    vehicle_id: Seq<char>,
    returned_date: Timestamp,
) -> Map<(Seq<char>, Seq<char>), RentRowModel> {
    if rents.contains_key((customer_id, vehicle_id)) && rents[
        (customer_id, vehicle_id)
    ].end_date is None {
        rents.insert(
            (customer_id, vehicle_id),
            RentRowModel {
                customer_id,
                vehicle_id,
                start_date: rents[(customer_id, vehicle_id)].start_date,
                end_date: Some(returned_date),
            },
        )
    } else {
        rents
    }
}

/// Handling the same event twice leaves the tables as after the first time:
/// every handler is idempotent.
pub proof fn lemma_handle_idempotent(t: ReadModelTables, e: EventModel)
    ensures
        spec_handle(spec_handle(t, e), e) == spec_handle(t, e),
{
}

/// The read-model projection: the three tables, derived from the log and
/// mutated only by the projector.
#[derive(Debug)]
pub struct ReadModelProjection {
    pub customers: Vec<CustomerRow>,
    pub vehicles: Vec<VehicleRow>,
    pub rents: Vec<RentRow>,
}

impl View for ReadModelProjection {
    type V = ReadModelTables;

    open spec fn view(&self) -> ReadModelTables {
        ReadModelTables {
            customers: table_of(self.customers@.map_values(|r: CustomerRow| r@), customer_key()),
            vehicles: table_of(self.vehicles@.map_values(|r: VehicleRow| r@), vehicle_key()),
            rents: table_of(self.rents@.map_values(|r: RentRow| r@), rent_key()),
        }
    }
}

impl ReadModelProjection {
    /// No two rows of a table share a primary key.
    pub open spec fn inv(&self) -> bool {
        &&& keys_unique(self.customers@.map_values(|r: CustomerRow| r@), customer_key())
        &&& keys_unique(self.vehicles@.map_values(|r: VehicleRow| r@), vehicle_key())
        &&& keys_unique(self.rents@.map_values(|r: RentRow| r@), rent_key())
    }

    /// Empty tables.
    pub fn new() -> (r: ReadModelProjection)
        ensures
            r.inv(),
            r@.customers == Map::<Seq<char>, CustomerRowModel>::empty(),
            r@.vehicles == Map::<Seq<char>, VehicleRowModel>::empty(),
            r@.rents == Map::<(Seq<char>, Seq<char>), RentRowModel>::empty(),
    {
        let r = ReadModelProjection { customers: Vec::new(), vehicles: Vec::new(), rents: Vec::new() };
        proof {
            assert(r.customers@.map_values(|r: CustomerRow| r@) =~= Seq::<CustomerRowModel>::empty());
            assert(r.vehicles@.map_values(|r: VehicleRow| r@) =~= Seq::<VehicleRowModel>::empty());
            assert(r.rents@.map_values(|r: RentRow| r@) =~= Seq::<RentRowModel>::empty());
        }
        r
    }

    /// The unique identity of this listener, keying its durable checkpoint.
    pub fn id(&self) -> (s: &'static str)
        ensures
            s@ == "drive_me_crazy_rentals"@,
    {
        "drive_me_crazy_rentals"
    }

    /// The listener-scoped query: this projection subscribes to the whole log.
    pub fn query(&self) -> (q: StreamQuery)
        ensures
            forall|e: EventModel| query_matches(q@, e),
    {
        StreamQuery::unfiltered()
    }

    /// Whether the customer table holds a row for the key.
    fn contains_customer(&self, customer_id: &Email) -> (b: bool)
        ensures
            b == self@.customers.contains_key(customer_id@),
    {
        let ghost rows = self.customers@.map_values(|r: CustomerRow| r@);
        let mut i: usize = 0;
        while i < self.customers.len()
            invariant
                0 <= i <= self.customers.len(),
                rows == self.customers@.map_values(|r: CustomerRow| r@),
                rows.len() == self.customers@.len(),
                forall|j: int| 0 <= j < i ==> customer_key()(#[trigger] rows[j]) != customer_id@,
            decreases self.customers.len() - i,
        {
            if self.customers[i].customer_id == *customer_id {
                proof {
                    lemma_table_contains(rows, customer_key(), customer_id@);
                    assert(customer_key()(rows[i as int]) == customer_id@);
                }
                return true;
            }
            i += 1;
        }
        proof {
            lemma_table_contains(rows, customer_key(), customer_id@);
        }
        false
    }

    /// Whether the vehicle table holds a row for the key.
    fn contains_vehicle(&self, vehicle_id: &PlateNumber) -> (b: bool)
        ensures
            b == self@.vehicles.contains_key(vehicle_id@),
    {
        let ghost rows = self.vehicles@.map_values(|r: VehicleRow| r@);
        let mut i: usize = 0;
        while i < self.vehicles.len()
            invariant
                0 <= i <= self.vehicles.len(),
                rows == self.vehicles@.map_values(|r: VehicleRow| r@),
                rows.len() == self.vehicles@.len(),
                forall|j: int| 0 <= j < i ==> vehicle_key()(#[trigger] rows[j]) != vehicle_id@,
            decreases self.vehicles.len() - i,
        {
            if self.vehicles[i].vehicle_id == *vehicle_id {
                proof {
                    lemma_table_contains(rows, vehicle_key(), vehicle_id@);
                    assert(vehicle_key()(rows[i as int]) == vehicle_id@);
                }
                return true;
            }
            i += 1;
        }
        proof {
            lemma_table_contains(rows, vehicle_key(), vehicle_id@);
        }
        false
    }

    /// Whether the rent table holds a row for the key.
    fn contains_rent(&self, customer_id: &Email, vehicle_id: &PlateNumber) -> (b: bool)
        ensures
            b == self@.rents.contains_key((customer_id@, vehicle_id@)),
    {
        let ghost rows = self.rents@.map_values(|r: RentRow| r@);
        let mut i: usize = 0;
        while i < self.rents.len()
            invariant
                0 <= i <= self.rents.len(),
                rows == self.rents@.map_values(|r: RentRow| r@),
                rows.len() == self.rents@.len(),
                forall|j: int|
                    0 <= j < i ==> rent_key()(#[trigger] rows[j]) != (customer_id@, vehicle_id@),
            decreases self.rents.len() - i,
        {
            if self.rents[i].customer_id == *customer_id && self.rents[i].vehicle_id
                == *vehicle_id {
                proof {
                    lemma_table_contains(rows, rent_key(), (customer_id@, vehicle_id@));
                    assert(rent_key()(rows[i as int]) == (customer_id@, vehicle_id@));
                }
                return true;
            }
            i += 1;
        }
        proof {
            lemma_table_contains(rows, rent_key(), (customer_id@, vehicle_id@));
        }
        false
    }

    /// Applies one event to the tables: the upsert its handler performs.
    pub fn handle(&mut self, event: &DomainEvent)
        requires
            old(self).inv(),
        ensures
            final(self).inv(),
            final(self)@ == spec_handle(old(self)@, event@),
    {
        match event {
            DomainEvent::CustomerRegistered { customer_id, first_name, last_name } => {
                if !self.contains_customer(customer_id) {
                    let ghost rows = self.customers@.map_values(|r: CustomerRow| r@);
                    let row = CustomerRow {
                        customer_id: customer_id.clone(),
                        first_name: first_name.clone(),
                        last_name: last_name.clone(),
                    };
                    proof {
                        lemma_table_contains(rows, customer_key(), customer_id@);
                        lemma_table_push(rows, customer_key(), row@);
                    }
                    self.customers.push(row);
                    proof {
                        assert(self.customers@.map_values(|r: CustomerRow| r@) =~= rows.push(
                            row@,
                        ));
                    }
                }
            },
            DomainEvent::VehicleAdded { vehicle_id, vehicle_type } => {
                if !self.contains_vehicle(vehicle_id) {
                    let ghost rows = self.vehicles@.map_values(|r: VehicleRow| r@);
                    let row = VehicleRow {
                        vehicle_id: vehicle_id.clone(),
                        vehicle_type: vehicle_type.into_identifier_value(),
                    };
                    proof {
                        lemma_table_contains(rows, vehicle_key(), vehicle_id@);
                        lemma_table_push(rows, vehicle_key(), row@);
                    }
                    self.vehicles.push(row);
                    proof {
                        assert(self.vehicles@.map_values(|r: VehicleRow| r@) =~= rows.push(row@));
                    }
                }
            },
            DomainEvent::VehicleRented { customer_id, vehicle_id, start_date, .. } => {
                if !self.contains_rent(customer_id, vehicle_id) {
                    let ghost rows = self.rents@.map_values(|r: RentRow| r@);
                    let row = RentRow {
                        customer_id: customer_id.clone(),
                        vehicle_id: vehicle_id.clone(),
                        start_date: *start_date,
                        end_date: None,
                    };
                    proof {
                        lemma_table_contains(rows, rent_key(), (customer_id@, vehicle_id@));
                        lemma_table_push(rows, rent_key(), row@);
                    }
                    self.rents.push(row);
                    proof {
                        assert(self.rents@.map_values(|r: RentRow| r@) =~= rows.push(row@));
                    }
                }
            },
            DomainEvent::VehicleReturned { customer_id, vehicle_id, returned_date, .. } => {
                self.close_rent(customer_id, vehicle_id, *returned_date);
            },
        }
    }

    /// Sets the end date of the customer's open rental row for the plate; a
    /// missing open row is a no-op, so a replayed event changes nothing.
    fn close_rent(&mut self, customer_id: &Email, vehicle_id: &PlateNumber, returned_date: Timestamp)
        requires
            old(self).inv(),
        ensures
            final(self).inv(),
            final(self)@ == (ReadModelTables {
                rents: close_rent_table(
                    old(self)@.rents,
                    customer_id@,
                    vehicle_id@,
                    returned_date,
                ),
                ..old(self)@
            }),
    {
        let ghost rows = self.rents@.map_values(|r: RentRow| r@);
        let ghost k = (customer_id@, vehicle_id@);
        let mut i: usize = 0;
        while i < self.rents.len()
            invariant
                0 <= i <= self.rents.len(),
                rows == self.rents@.map_values(|r: RentRow| r@),
                rows.len() == self.rents@.len(),
                k == (customer_id@, vehicle_id@),
                old(self) == self,
                self.inv(),
                forall|j: int|
                    0 <= j < i ==> !(rent_key()(#[trigger] rows[j]) == k && rows[j].end_date
                        is None),
            decreases self.rents.len() - i,
        {
            if self.rents[i].customer_id == *customer_id && self.rents[i].vehicle_id == *vehicle_id
                && self.rents[i].end_date.is_none() {
                let updated = RentRow {
                    customer_id: self.rents[i].customer_id.clone(),
                    vehicle_id: self.rents[i].vehicle_id.clone(),
                    start_date: self.rents[i].start_date,
                    end_date: Some(returned_date),
                };
                proof {
                    lemma_table_at_row(rows, rent_key(), i as int);
                    lemma_table_update(rows, rent_key(), i as int, updated@);
                    assert forall|a: int, b: int|
                        0 <= a < b < rows.update(i as int, updated@).len() implies rent_key()(
                        rows.update(i as int, updated@)[a],
                    ) != rent_key()(rows.update(i as int, updated@)[b]) by {
                        assert(rent_key()(rows.update(i as int, updated@)[a]) == rent_key()(
                            rows[a],
                        ));
                        assert(rent_key()(rows.update(i as int, updated@)[b]) == rent_key()(
                            rows[b],
                        ));
                    }
                }
                self.rents.set(i, updated);
                proof {
                    assert(self.rents@.map_values(|r: RentRow| r@) =~= rows.update(
                        i as int,
                        updated@,
                    ));
                }
                return ;
            }
            proof {
                assert(rows[i as int] == self.rents@[i as int]@);
                assert(!(rent_key()(rows[i as int]) == k && rows[i as int].end_date is None));
            }
            i += 1;
        }
        proof {
            if self@.rents.contains_key(k) {
                lemma_table_contains(rows, rent_key(), k);
                let j = choose|j: int| 0 <= j < rows.len() && rent_key()(#[trigger] rows[j]) == k;
                lemma_table_at_row(rows, rent_key(), j);
                assert(rows[j].end_date is Some);
            }
        }
    }
}

} // verus!
