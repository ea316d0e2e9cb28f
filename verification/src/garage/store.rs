//! The relational store the engine works on: six tables of rows, their
//! mathematical view, and the rules every reachable store obeys.

use vstd::prelude::*;
use crate::admin::models::{AdminUser, AdminUserView};
use crate::garage::models::{Amount, CalendarDate, GarageUser, GarageUserView, views};
use crate::text::opt_text;

verus! {

/// A customer, known by phone number.
#[derive(Debug)]
pub struct Customer {
    pub id: u128,
    pub phone: String,
    pub name: Option<String>,
}

pub struct CustomerView {
    pub id: u128,
    pub phone: Seq<char>,
    pub name: Option<Seq<char>>,
}

impl View for Customer {
    type V = CustomerView;

    open spec fn view(&self) -> CustomerView {
        CustomerView { id: self.id, phone: self.phone@, name: opt_text(self.name) }
    }
}

/// A vehicle, known by its owner and its registration number.
#[derive(Debug)]
pub struct Vehicle {
    pub id: u128,
    pub customer_id: u128,
    pub vehicle_number: String,
    pub make: Option<String>,
    pub model: Option<String>,
}

pub struct VehicleView {
    pub id: u128,
    pub customer_id: u128,
    pub vehicle_number: Seq<char>,
    pub make: Option<Seq<char>>,
    pub model: Option<Seq<char>>,
}

impl View for Vehicle {
    type V = VehicleView;

    open spec fn view(&self) -> VehicleView {
        VehicleView {
            id: self.id,
            customer_id: self.customer_id,
            vehicle_number: self.vehicle_number@,
            make: opt_text(self.make),
            model: opt_text(self.model),
        }
    }
}

/// A repair job. `deleted` is the soft-delete marker: a deleted job stays
/// in the table and is excluded from every read.
#[derive(Debug)]
pub struct Job {
    pub id: u128,
    pub job_identifier: String,
    pub garage_id: u128,
    pub vehicle_id: u128,
    pub customer_phone: String,
    pub customer_name: Option<String>,
    pub complaint: Option<String>,
    pub estimated_delivery_date: Option<CalendarDate>,
    pub estimated_time: Option<String>,
    pub status: String,
    pub remarks: Option<String>,
    pub deleted: bool,
}

pub struct JobView {
    pub id: u128,
    pub job_identifier: Seq<char>,
    pub garage_id: u128,
    pub vehicle_id: u128,
    pub customer_phone: Seq<char>,
    pub customer_name: Option<Seq<char>>,
    pub complaint: Option<Seq<char>>,
    pub estimated_delivery_date: Option<CalendarDate>,
    pub estimated_time: Option<Seq<char>>,
    pub status: Seq<char>,
    pub remarks: Option<Seq<char>>,
    pub deleted: bool,
}

impl View for Job {
    type V = JobView;

    open spec fn view(&self) -> JobView {
        JobView {
            id: self.id,
            job_identifier: self.job_identifier@,
            garage_id: self.garage_id,
            vehicle_id: self.vehicle_id,
            customer_phone: self.customer_phone@,
            customer_name: opt_text(self.customer_name),
            complaint: opt_text(self.complaint),
            estimated_delivery_date: self.estimated_delivery_date,
            estimated_time: opt_text(self.estimated_time),
            status: self.status@,
            remarks: opt_text(self.remarks),
            deleted: self.deleted,
        }
    }
}

/// A billable part of one job.
#[derive(Debug)]
pub struct JobPart {
    pub id: u128,
    pub job_id: u128,
    pub name: String,
    pub quantity: Option<i32>,
    pub unit_price: Amount,
    pub tax_percent: Option<Amount>,
}

pub struct JobPartView {
    pub id: u128,
    pub job_id: u128,
    pub name: Seq<char>,
    pub quantity: Option<i32>,
    pub unit_price: Amount,
    pub tax_percent: Option<Amount>,
}

impl View for JobPart {
    type V = JobPartView;

    open spec fn view(&self) -> JobPartView {
        JobPartView {
            id: self.id,
            job_id: self.job_id,
            name: self.name@,
            quantity: self.quantity,
            unit_price: self.unit_price,
            tax_percent: self.tax_percent,
        }
    }
}

/// One entry of the status ledger: a job went from one status to another.
/// `from_status` is absent only in the entry that records the job's creation.
#[derive(Debug)]
pub struct StatusHistoryEntry {
    pub id: u128,
    pub job_id: u128,
    pub from_status: Option<String>,
    pub to_status: String,
    pub note: Option<String>,
    pub created_at: i64,
}

pub struct StatusHistoryEntryView {
    pub id: u128,
    pub job_id: u128,
    pub from_status: Option<Seq<char>>,
    pub to_status: Seq<char>,
    pub note: Option<Seq<char>>,
    pub created_at: i64,
}

impl View for StatusHistoryEntry {
    type V = StatusHistoryEntryView;

    open spec fn view(&self) -> StatusHistoryEntryView {
        StatusHistoryEntryView {
            id: self.id,
            job_id: self.job_id,
            from_status: opt_text(self.from_status),
            to_status: self.to_status@,
            note: opt_text(self.note),
            created_at: self.created_at,
        }
    }
}

/// The store: every table in the order in which its rows were created.
/// Administrators' accounts are kept as they are registered; the rules of
/// the store concern the other tables.
pub struct Store {
    pub(crate) system_users: Vec<AdminUser>,
    pub(crate) garage_users: Vec<GarageUser>,
    pub(crate) customers: Vec<Customer>,
    pub(crate) vehicles: Vec<Vehicle>,
    pub(crate) jobs: Vec<Job>,
    pub(crate) parts: Vec<JobPart>,
    pub(crate) history: Vec<StatusHistoryEntry>,
}

pub struct StoreView {
    pub system_users: Seq<AdminUserView>,
    pub garage_users: Seq<GarageUserView>,
    pub customers: Seq<CustomerView>,
    pub vehicles: Seq<VehicleView>,
    pub jobs: Seq<JobView>,
    pub parts: Seq<JobPartView>,
    pub history: Seq<StatusHistoryEntryView>,
}

impl View for Store {
    type V = StoreView;

    open(crate) spec fn view(&self) -> StoreView {
        StoreView {
            system_users: views(self.system_users@),
            garage_users: views(self.garage_users@),
            customers: views(self.customers@),
            vehicles: views(self.vehicles@),
            jobs: views(self.jobs@),
            parts: views(self.parts@),
            history: views(self.history@),
        }
    }
}

// ---------------------------------------------------------------------
// Lookups over the view
// ---------------------------------------------------------------------

/// Some garage user has this id.
pub open spec fn has_garage_user(users: Seq<GarageUserView>, id: u128) -> bool {
    exists|i: int| 0 <= i < users.len() && (#[trigger] users[i]).id == id
}

/// The position of the garage user with this id.
pub open spec fn garage_user_pos(users: Seq<GarageUserView>, id: u128) -> int {
    choose|i: int| 0 <= i < users.len() && (#[trigger] users[i]).id == id
}

/// Some customer has this phone number.
pub open spec fn knows_phone(customers: Seq<CustomerView>, phone: Seq<char>) -> bool {
    exists|i: int| 0 <= i < customers.len() && (#[trigger] customers[i]).phone == phone
}

/// The position of the customer with this phone number.
pub open spec fn phone_pos(customers: Seq<CustomerView>, phone: Seq<char>) -> int {
    choose|i: int| 0 <= i < customers.len() && (#[trigger] customers[i]).phone == phone
}

/// Some customer has this id.
pub open spec fn has_customer(customers: Seq<CustomerView>, id: u128) -> bool {
    exists|i: int| 0 <= i < customers.len() && (#[trigger] customers[i]).id == id
}

/// The position of the customer with this id.
pub open spec fn customer_pos(customers: Seq<CustomerView>, id: u128) -> int {
    choose|i: int| 0 <= i < customers.len() && (#[trigger] customers[i]).id == id
}

/// Some vehicle of this customer has this registration number.
pub open spec fn knows_vehicle(
    vehicles: Seq<VehicleView>,
    customer_id: u128,
    number: Seq<char>,
) -> bool {
    exists|i: int|
        0 <= i < vehicles.len() && (#[trigger] vehicles[i]).customer_id == customer_id
            && vehicles[i].vehicle_number == number
}

/// The position of this customer's vehicle with this registration number.
pub open spec fn vehicle_key_pos(
    vehicles: Seq<VehicleView>,
    customer_id: u128,
    number: Seq<char>,
) -> int {
    choose|i: int|
        0 <= i < vehicles.len() && (#[trigger] vehicles[i]).customer_id == customer_id
            && vehicles[i].vehicle_number == number
}

/// Some vehicle has this id.
pub open spec fn has_vehicle(vehicles: Seq<VehicleView>, id: u128) -> bool {
    exists|i: int| 0 <= i < vehicles.len() && (#[trigger] vehicles[i]).id == id
}

/// The position of the vehicle with this id.
pub open spec fn vehicle_pos(vehicles: Seq<VehicleView>, id: u128) -> int {
    choose|i: int| 0 <= i < vehicles.len() && (#[trigger] vehicles[i]).id == id
}

/// Some job, deleted or not, has this id.
pub open spec fn has_job(jobs: Seq<JobView>, id: u128) -> bool {
    exists|i: int| 0 <= i < jobs.len() && (#[trigger] jobs[i]).id == id
}

/// The position of the job with this id.
pub open spec fn job_pos(jobs: Seq<JobView>, id: u128) -> int {
    choose|i: int| 0 <= i < jobs.len() && (#[trigger] jobs[i]).id == id
}

/// A job with this id exists and is not soft-deleted.
pub open spec fn live_job(jobs: Seq<JobView>, id: u128) -> bool {
    exists|i: int| 0 <= i < jobs.len() && (#[trigger] jobs[i]).id == id && !jobs[i].deleted
}

/// Some job carries this display identifier.
pub open spec fn has_job_identifier(jobs: Seq<JobView>, identifier: Seq<char>) -> bool {
    exists|i: int| 0 <= i < jobs.len() && (#[trigger] jobs[i]).job_identifier == identifier
}

/// Some part has this id.
pub open spec fn has_part(parts: Seq<JobPartView>, id: u128) -> bool {
    exists|i: int| 0 <= i < parts.len() && (#[trigger] parts[i]).id == id
}

/// This part exists and belongs to this job.
pub open spec fn owns_part(parts: Seq<JobPartView>, job_id: u128, part_id: u128) -> bool {
    exists|i: int|
        0 <= i < parts.len() && (#[trigger] parts[i]).id == part_id && parts[i].job_id == job_id
}

/// The position of this job's part with this id.
pub open spec fn owned_part_pos(parts: Seq<JobPartView>, job_id: u128, part_id: u128) -> int {
    choose|i: int|
        0 <= i < parts.len() && (#[trigger] parts[i]).id == part_id && parts[i].job_id == job_id
}

/// Some ledger entry has this id.
pub open spec fn has_entry(history: Seq<StatusHistoryEntryView>, id: u128) -> bool {
    exists|i: int| 0 <= i < history.len() && (#[trigger] history[i]).id == id
}

/// The parts of one job, in the order of their creation.
pub open spec fn parts_of(parts: Seq<JobPartView>, job_id: u128) -> Seq<JobPartView> {
    parts.filter(|p: JobPartView| p.job_id == job_id)
}

/// The ledger of one job, in the order of its entries' creation.
pub open spec fn history_of(history: Seq<StatusHistoryEntryView>, job_id: u128) -> Seq<
    StatusHistoryEntryView,
> {
    history.filter(|e: StatusHistoryEntryView| e.job_id == job_id)
}

// ---------------------------------------------------------------------
// The rules of a store
// ---------------------------------------------------------------------

/// A ledger chains: its first entry comes from no status, and every later
/// entry starts from the status its predecessor ended in.
pub open spec fn chained(ledger: Seq<StatusHistoryEntryView>) -> bool {
    forall|i: int|
        0 <= i < ledger.len() ==> (#[trigger] ledger[i]).from_status == (if i == 0 {
            None::<Seq<char>>
        } else {
            Some(ledger[i - 1].to_status)
        })
}

/// A job's ledger is not empty, chains, and ends in the job's status.
pub open spec fn ledger_matches(ledger: Seq<StatusHistoryEntryView>, status: Seq<char>) -> bool {
    &&& ledger.len() > 0
    &&& chained(ledger)
    &&& ledger.last().to_status == status
}

/// No two garage users share an id.
#[verifier::opaque]
pub open spec fn users_ok(users: Seq<GarageUserView>) -> bool {
    forall|i: int, j: int|
        0 <= i < j < users.len() ==> (#[trigger] users[i]).id != (#[trigger] users[j]).id
}

/// No two customers share an id or a phone number.
#[verifier::opaque]
pub open spec fn customers_ok(customers: Seq<CustomerView>) -> bool {
    forall|i: int, j: int|
        0 <= i < j < customers.len() ==> (#[trigger] customers[i]).id != (
        #[trigger] customers[j]).id && customers[i].phone != customers[j].phone
}

/// No two vehicles share an id, or an owner together with a registration
/// number.
#[verifier::opaque]
pub open spec fn vehicles_ok(vehicles: Seq<VehicleView>) -> bool {
    forall|i: int, j: int|
        0 <= i < j < vehicles.len() ==> (#[trigger] vehicles[i]).id != (
        #[trigger] vehicles[j]).id && !(vehicles[i].customer_id == vehicles[j].customer_id
            && vehicles[i].vehicle_number == vehicles[j].vehicle_number)
}

/// No two jobs share an id or a display identifier.
#[verifier::opaque]
pub open spec fn jobs_ok(jobs: Seq<JobView>) -> bool {
    forall|i: int, j: int|
        0 <= i < j < jobs.len() ==> (#[trigger] jobs[i]).id != (#[trigger] jobs[j]).id
            && jobs[i].job_identifier != jobs[j].job_identifier
}

/// No two parts share an id, and every part belongs to a job of the store.
#[verifier::opaque]
pub open spec fn parts_ok(parts: Seq<JobPartView>, jobs: Seq<JobView>) -> bool {
    &&& forall|i: int, j: int|
        0 <= i < j < parts.len() ==> (#[trigger] parts[i]).id != (#[trigger] parts[j]).id
    &&& forall|i: int| 0 <= i < parts.len() ==> has_job(jobs, (#[trigger] parts[i]).job_id)
}

/// No two ledger entries share an id, every entry belongs to a job of the
/// store, and the entries stand in the order of their time stamps.
#[verifier::opaque]
pub open spec fn history_ok(history: Seq<StatusHistoryEntryView>, jobs: Seq<JobView>) -> bool {
    &&& forall|i: int, j: int|
        0 <= i < j < history.len() ==> (#[trigger] history[i]).id != (#[trigger] history[j]).id
            && history[i].created_at <= history[j].created_at
    &&& forall|i: int| 0 <= i < history.len() ==> has_job(jobs, (#[trigger] history[i]).job_id)
}

/// Every job's ledger is not empty, chains, and ends in the job's status.
#[verifier::opaque]
pub open spec fn ledgers_ok(jobs: Seq<JobView>, history: Seq<StatusHistoryEntryView>) -> bool {
    forall|k: int|
        0 <= k < jobs.len() ==> ledger_matches(
            history_of(history, (#[trigger] jobs[k]).id),
            jobs[k].status,
        )
}

/// The rules that hold of every store the engine produces.
pub open spec fn store_wf(s: StoreView) -> bool {
    &&& users_ok(s.garage_users)
    &&& customers_ok(s.customers)
    &&& vehicles_ok(s.vehicles)
    &&& jobs_ok(s.jobs)
    &&& parts_ok(s.parts, s.jobs)
    &&& history_ok(s.history, s.jobs)
    &&& ledgers_ok(s.jobs, s.history)
}

impl Store {
    /// This store obeys the rules.
    pub open spec fn wf(&self) -> bool {
        store_wf(self@)
    }

    /// An empty store.
    pub fn new() -> (store: Store)
        ensures
            store.wf(),
            store@.system_users.len() == 0,
            store@.garage_users.len() == 0,
            store@.customers.len() == 0,
            store@.vehicles.len() == 0,
            store@.jobs.len() == 0,
            store@.parts.len() == 0,
            store@.history.len() == 0,
    {
        let store = Store {
            system_users: Vec::new(),
            garage_users: Vec::new(),
            customers: Vec::new(),
            vehicles: Vec::new(),
            jobs: Vec::new(),
            parts: Vec::new(),
            history: Vec::new(),
        };
        proof {
            assert(store@.system_users =~= Seq::empty());
            assert(store@.garage_users =~= Seq::empty());
            assert(store@.customers =~= Seq::empty());
            assert(store@.vehicles =~= Seq::empty());
            assert(store@.jobs =~= Seq::empty());
            assert(store@.parts =~= Seq::empty());
            assert(store@.history =~= Seq::empty());
            lemma_empty_store_wf();
        }
        store
    }
}

// ---------------------------------------------------------------------
// How the rules are kept
// ---------------------------------------------------------------------

/// The empty store obeys the rules.
pub proof fn lemma_empty_store_wf()
    ensures
        store_wf(
            StoreView {
                system_users: Seq::empty(),
                garage_users: Seq::empty(),
                customers: Seq::empty(),
                vehicles: Seq::empty(),
                jobs: Seq::empty(),
                parts: Seq::empty(),
                history: Seq::empty(),
            },
        ),
{
    reveal(users_ok);
    reveal(customers_ok);
    reveal(vehicles_ok);
    reveal(jobs_ok);
    reveal(parts_ok);
    reveal(history_ok);
    reveal(ledgers_ok);
}

/// Among garage users without duplicates, the row found under an id is the
/// row the lookup names.
pub proof fn lemma_garage_user_pos(users: Seq<GarageUserView>, i: int)
    requires
        users_ok(users),
        0 <= i < users.len(),
    ensures
        has_garage_user(users, users[i].id),
        garage_user_pos(users, users[i].id) == i,
{
    reveal(users_ok);
}

/// A garage user with a new id may be appended.
pub proof fn lemma_users_push(users: Seq<GarageUserView>, user: GarageUserView)
    requires
        users_ok(users),
        !has_garage_user(users, user.id),
    ensures
        users_ok(users.push(user)),
{
    reveal(users_ok);
}

/// Among customers without duplicates, the row found under a phone number
/// or an id is the row the lookup names.
pub proof fn lemma_phone_pos(customers: Seq<CustomerView>, i: int)
    requires
        customers_ok(customers),
        0 <= i < customers.len(),
    ensures
        knows_phone(customers, customers[i].phone),
        phone_pos(customers, customers[i].phone) == i,
        has_customer(customers, customers[i].id),
        customer_pos(customers, customers[i].id) == i,
{
    reveal(customers_ok);
}

/// A customer's row may be replaced by one with the same id and phone
/// number.
pub proof fn lemma_customers_update(customers: Seq<CustomerView>, i: int, row: CustomerView)
    requires
        customers_ok(customers),
        0 <= i < customers.len(),
        row.id == customers[i].id,
        row.phone == customers[i].phone,
    ensures
        customers_ok(customers.update(i, row)),
{
    reveal(customers_ok);
}

/// A customer with a new id and a new phone number may be appended.
pub proof fn lemma_customers_push(customers: Seq<CustomerView>, row: CustomerView)
    requires
        customers_ok(customers),
        !has_customer(customers, row.id),
        !knows_phone(customers, row.phone),
    ensures
        customers_ok(customers.push(row)),
{
    reveal(customers_ok);
}

/// Among vehicles without duplicates, the row found under an owner and a
/// registration number, or under an id, is the row the lookup names.
pub proof fn lemma_vehicle_pos(vehicles: Seq<VehicleView>, i: int)
    requires
        vehicles_ok(vehicles),
        0 <= i < vehicles.len(),
    ensures
        knows_vehicle(vehicles, vehicles[i].customer_id, vehicles[i].vehicle_number),
        vehicle_key_pos(vehicles, vehicles[i].customer_id, vehicles[i].vehicle_number) == i,
        has_vehicle(vehicles, vehicles[i].id),
        vehicle_pos(vehicles, vehicles[i].id) == i,
{
    reveal(vehicles_ok);
}

/// A vehicle's row may be replaced by one with the same id, owner and
/// registration number.
pub proof fn lemma_vehicles_update(vehicles: Seq<VehicleView>, i: int, row: VehicleView)
    requires
        vehicles_ok(vehicles),
        0 <= i < vehicles.len(),
        row.id == vehicles[i].id,
        row.customer_id == vehicles[i].customer_id,
        row.vehicle_number == vehicles[i].vehicle_number,
    ensures
        vehicles_ok(vehicles.update(i, row)),
{
    reveal(vehicles_ok);
}

/// A vehicle with a new id and a new pair of owner and registration
/// number may be appended.
pub proof fn lemma_vehicles_push(vehicles: Seq<VehicleView>, row: VehicleView)
    requires
        vehicles_ok(vehicles),
        !has_vehicle(vehicles, row.id),
        !knows_vehicle(vehicles, row.customer_id, row.vehicle_number),
    ensures
        vehicles_ok(vehicles.push(row)),
{
    reveal(vehicles_ok);
}

/// Among jobs without duplicates, the row found under an id is the row the
/// lookup names, and the job is live exactly if that row is not deleted.
pub proof fn lemma_job_pos(jobs: Seq<JobView>, i: int)
    requires
        jobs_ok(jobs),
        0 <= i < jobs.len(),
    ensures
        has_job(jobs, jobs[i].id),
        job_pos(jobs, jobs[i].id) == i,
        live_job(jobs, jobs[i].id) <==> !jobs[i].deleted,
{
    reveal(jobs_ok);
}

/// A job with a new id and a new display identifier may be appended.
pub proof fn lemma_jobs_push(jobs: Seq<JobView>, job: JobView)
    requires
        jobs_ok(jobs),
        !has_job(jobs, job.id),
        !has_job_identifier(jobs, job.job_identifier),
    ensures
        jobs_ok(jobs.push(job)),
{
    reveal(jobs_ok);
}

/// A job's row may be replaced by one with the same id and display
/// identifier.
pub proof fn lemma_jobs_update(jobs: Seq<JobView>, k: int, job: JobView)
    requires
        jobs_ok(jobs),
        0 <= k < jobs.len(),
        job.id == jobs[k].id,
        job.job_identifier == jobs[k].job_identifier,
    ensures
        jobs_ok(jobs.update(k, job)),
{
    reveal(jobs_ok);
}

/// Parts keep their jobs when a job is appended.
pub proof fn lemma_parts_jobs_push(parts: Seq<JobPartView>, jobs: Seq<JobView>, job: JobView)
    requires
        parts_ok(parts, jobs),
    ensures
        parts_ok(parts, jobs.push(job)),
{
    reveal(parts_ok);
    assert forall|i: int| 0 <= i < parts.len() implies has_job(
        jobs.push(job),
        (#[trigger] parts[i]).job_id,
    ) by {
        lemma_has_job_push(jobs, job, parts[i].job_id);
    }
}

/// Parts keep their jobs when a job's row is replaced under the same id.
pub proof fn lemma_parts_jobs_update(
    parts: Seq<JobPartView>,
    jobs: Seq<JobView>,
    k: int,
    job: JobView,
)
    requires
        parts_ok(parts, jobs),
        0 <= k < jobs.len(),
        job.id == jobs[k].id,
    ensures
        parts_ok(parts, jobs.update(k, job)),
{
    reveal(parts_ok);
    assert forall|i: int| 0 <= i < parts.len() implies has_job(
        jobs.update(k, job),
        (#[trigger] parts[i]).job_id,
    ) by {
        lemma_has_job_update(jobs, k, job, parts[i].job_id);
    }
}

/// A part with a new id that belongs to a job of the store may be appended.
pub proof fn lemma_parts_push(parts: Seq<JobPartView>, jobs: Seq<JobView>, part: JobPartView)
    requires
        parts_ok(parts, jobs),
        !has_part(parts, part.id),
        has_job(jobs, part.job_id),
    ensures
        parts_ok(parts.push(part), jobs),
{
    reveal(parts_ok);
}

/// A part's row may be replaced by one with the same id and job.
pub proof fn lemma_parts_update(
    parts: Seq<JobPartView>,
    jobs: Seq<JobView>,
    i: int,
    part: JobPartView,
)
    requires
        parts_ok(parts, jobs),
        0 <= i < parts.len(),
        part.id == parts[i].id,
        part.job_id == parts[i].job_id,
    ensures
        parts_ok(parts.update(i, part), jobs),
{
    reveal(parts_ok);
}

/// A part may be removed; its id is free afterwards.
pub proof fn lemma_parts_remove(parts: Seq<JobPartView>, jobs: Seq<JobView>, i: int)
    requires
        parts_ok(parts, jobs),
        0 <= i < parts.len(),
    ensures
        parts_ok(parts.remove(i), jobs),
        !has_part(parts.remove(i), parts[i].id),
{
    reveal(parts_ok);
    let rest = parts.remove(i);
    assert forall|a: int, b: int| 0 <= a < b < rest.len() implies (#[trigger] rest[a]).id != (
    #[trigger] rest[b]).id by {
        let a0 = if a < i { a } else { a + 1 };
        let b0 = if b < i { b } else { b + 1 };
        assert(rest[a] == parts[a0] && rest[b] == parts[b0]);
    }
    assert forall|a: int| 0 <= a < rest.len() implies has_job(
        jobs,
        (#[trigger] rest[a]).job_id,
    ) by {
        let a0 = if a < i { a } else { a + 1 };
        assert(rest[a] == parts[a0]);
    }
    assert forall|a: int| 0 <= a < rest.len() implies (#[trigger] rest[a]).id != parts[i].id by {
        let a0 = if a < i { a } else { a + 1 };
        assert(rest[a] == parts[a0]);
    }
}

/// In a table without duplicates, the part found under an id is the one
/// the lookup names, and it belongs to one job only.
pub proof fn lemma_part_pos(parts: Seq<JobPartView>, jobs: Seq<JobView>, i: int)
    requires
        parts_ok(parts, jobs),
        0 <= i < parts.len(),
    ensures
        has_part(parts, parts[i].id),
        owns_part(parts, parts[i].job_id, parts[i].id),
        owned_part_pos(parts, parts[i].job_id, parts[i].id) == i,
        forall|job_id: u128| job_id != parts[i].job_id ==> !owns_part(parts, job_id, parts[i].id),
{
    reveal(parts_ok);
}

/// Ledger entries keep their jobs when a job is appended.
pub proof fn lemma_history_jobs_push(
    history: Seq<StatusHistoryEntryView>,
    jobs: Seq<JobView>,
    job: JobView,
)
    requires
        history_ok(history, jobs),
    ensures
        history_ok(history, jobs.push(job)),
{
    reveal(history_ok);
    assert forall|i: int| 0 <= i < history.len() implies has_job(
        jobs.push(job),
        (#[trigger] history[i]).job_id,
    ) by {
        lemma_has_job_push(jobs, job, history[i].job_id);
    }
}

/// Ledger entries keep their jobs when a job's row is replaced under the
/// same id.
pub proof fn lemma_history_jobs_update(
    history: Seq<StatusHistoryEntryView>,
    jobs: Seq<JobView>,
    k: int,
    job: JobView,
)
    requires
        history_ok(history, jobs),
        0 <= k < jobs.len(),
        job.id == jobs[k].id,
    ensures
        history_ok(history, jobs.update(k, job)),
{
    reveal(history_ok);
    assert forall|i: int| 0 <= i < history.len() implies has_job(
        jobs.update(k, job),
        (#[trigger] history[i]).job_id,
    ) by {
        lemma_has_job_update(jobs, k, job, history[i].job_id);
    }
}

/// The newest entry carries the latest time stamp of the ledger.
pub proof fn lemma_history_push(
    history: Seq<StatusHistoryEntryView>,
    jobs: Seq<JobView>,
    entry: StatusHistoryEntryView,
)
    requires
        history_ok(history, jobs),
        !has_entry(history, entry.id),
        has_job(jobs, entry.job_id),
        history.len() > 0 ==> history.last().created_at <= entry.created_at,
    ensures
        history_ok(history.push(entry), jobs),
{
    reveal(history_ok);
    let n = history.len() as int;
    assert forall|i: int, j: int| 0 <= i < j < n + 1 implies (#[trigger] history.push(entry)[i]).id
        != (#[trigger] history.push(entry)[j]).id && history.push(entry)[i].created_at
        <= history.push(entry)[j].created_at by {
        if j == n {
            assert(history[i].id != entry.id);
            if i < n - 1 {
                assert(history[i].created_at <= history[n - 1].created_at);
            }
        }
    }
}

/// No entry mentions a job the store does not hold.
pub proof fn lemma_no_entry_of_stranger(
    history: Seq<StatusHistoryEntryView>,
    jobs: Seq<JobView>,
    job_id: u128,
)
    requires
        history_ok(history, jobs),
        !has_job(jobs, job_id),
    ensures
        history_of(history, job_id).len() == 0,
{
    reveal(history_ok);
    lemma_history_of_stranger(history, job_id);
}

/// Opening a job: the new job's ledger is the entry of its creation, and
/// every other ledger is untouched.
pub proof fn lemma_ledgers_open(
    jobs: Seq<JobView>,
    history: Seq<StatusHistoryEntryView>,
    job: JobView,
    entry: StatusHistoryEntryView,
)
    requires
        ledgers_ok(jobs, history),
        history_ok(history, jobs),
        !has_job(jobs, job.id),
        entry.job_id == job.id,
        entry.from_status is None,
        entry.to_status == job.status,
    ensures
        ledgers_ok(jobs.push(job), history.push(entry)),
        history_of(history.push(entry), job.id) == seq![entry],
{
    reveal(ledgers_ok);
    lemma_no_entry_of_stranger(history, jobs, job.id);
    lemma_history_of_push(history, entry, job.id);
    assert(history_of(history.push(entry), job.id) =~= seq![entry]);
    let new_jobs = jobs.push(job);
    assert forall|k: int| 0 <= k < new_jobs.len() implies ledger_matches(
        history_of(history.push(entry), (#[trigger] new_jobs[k]).id),
        new_jobs[k].status,
    ) by {
        if k < jobs.len() {
            assert(new_jobs[k] == jobs[k]);
            lemma_history_of_push(history, entry, jobs[k].id);
        }
    }
}

/// A status change: the job's ledger grows by one entry that starts from
/// the job's old status, and every other ledger is untouched.
pub proof fn lemma_ledgers_transition(
    jobs: Seq<JobView>,
    history: Seq<StatusHistoryEntryView>,
    k: int,
    job: JobView,
    entry: StatusHistoryEntryView,
)
    requires
        ledgers_ok(jobs, history),
        jobs_ok(jobs),
        0 <= k < jobs.len(),
        job.id == jobs[k].id,
        entry.job_id == job.id,
        entry.from_status == Some(jobs[k].status),
        entry.to_status == job.status,
    ensures
        ledgers_ok(jobs.update(k, job), history.push(entry)),
        history_of(history.push(entry), job.id) == history_of(history, job.id).push(entry),
{
    reveal(ledgers_ok);
    reveal(jobs_ok);
    lemma_history_of_push(history, entry, job.id);
    let new_jobs = jobs.update(k, job);
    let old_ledger = history_of(history, job.id);
    assert(ledger_matches(old_ledger, jobs[k].status));
    assert forall|m: int| 0 <= m < new_jobs.len() implies ledger_matches(
        history_of(history.push(entry), (#[trigger] new_jobs[m]).id),
        new_jobs[m].status,
    ) by {
        lemma_history_of_push(history, entry, new_jobs[m].id);
        if m == k {
            let ledger = old_ledger.push(entry);
            assert forall|i: int| 0 <= i < ledger.len() implies (#[trigger] ledger[i]).from_status
                == (if i == 0 {
                None::<Seq<char>>
            } else {
                Some(ledger[i - 1].to_status)
            }) by {
                if i < old_ledger.len() {
                    assert(ledger[i] == old_ledger[i]);
                }
            }
        } else {
            assert(new_jobs[m] == jobs[m]);
            assert(jobs[m].id != jobs[k].id);
        }
    }
}

/// Replacing a job's row without touching its id or status leaves every
/// ledger in order.
pub proof fn lemma_ledgers_job_kept(
    jobs: Seq<JobView>,
    history: Seq<StatusHistoryEntryView>,
    k: int,
    job: JobView,
)
    requires
        ledgers_ok(jobs, history),
        0 <= k < jobs.len(),
        job.id == jobs[k].id,
        job.status == jobs[k].status,
    ensures
        ledgers_ok(jobs.update(k, job), history),
{
    reveal(ledgers_ok);
    let new_jobs = jobs.update(k, job);
    assert forall|m: int| 0 <= m < new_jobs.len() implies ledger_matches(
        history_of(history, (#[trigger] new_jobs[m]).id),
        new_jobs[m].status,
    ) by {
        if m != k {
            assert(new_jobs[m] == jobs[m]);
        }
    }
}

// ---------------------------------------------------------------------
// Facts about one job's slice of a table
// ---------------------------------------------------------------------

/// Appending an entry extends the ledger of the entry's job and leaves
/// every other job's ledger alone.
pub proof fn lemma_history_of_push(
    history: Seq<StatusHistoryEntryView>,
    entry: StatusHistoryEntryView,
    job_id: u128,
)
    ensures
        history_of(history.push(entry), job_id) == if entry.job_id == job_id {
            history_of(history, job_id).push(entry)
        } else {
            history_of(history, job_id)
        },
{
    history.lemma_filter_push(entry, |e: StatusHistoryEntryView| e.job_id == job_id);
}

/// A job that no entry mentions has an empty ledger.
pub proof fn lemma_history_of_stranger(history: Seq<StatusHistoryEntryView>, job_id: u128)
    requires
        forall|i: int| 0 <= i < history.len() ==> (#[trigger] history[i]).job_id != job_id,
    ensures
        history_of(history, job_id).len() == 0,
    decreases history.len(),
{
    reveal(Seq::filter);
    if history.len() > 0 {
        lemma_history_of_stranger(history.drop_last(), job_id);
    }
}

/// Appending a part extends the part list of the part's job and leaves
/// every other job's part list alone.
pub proof fn lemma_parts_of_push(parts: Seq<JobPartView>, part: JobPartView, job_id: u128)
    ensures
        parts_of(parts.push(part), job_id) == if part.job_id == job_id {
            parts_of(parts, job_id).push(part)
        } else {
            parts_of(parts, job_id)
        },
{
    parts.lemma_filter_push(part, |p: JobPartView| p.job_id == job_id);
}

/// A job that is known stays known when a job is appended.
pub proof fn lemma_has_job_push(jobs: Seq<JobView>, job: JobView, id: u128)
    requires
        has_job(jobs, id),
    ensures
        has_job(jobs.push(job), id),
{
    let i = job_pos(jobs, id);
    assert(jobs.push(job)[i].id == id);
}

/// A job that is known stays known when a row is replaced by one with the
/// same id.
pub proof fn lemma_has_job_update(jobs: Seq<JobView>, k: int, job: JobView, id: u128)
    requires
        has_job(jobs, id),
        0 <= k < jobs.len(),
        job.id == jobs[k].id,
    ensures
        has_job(jobs.update(k, job), id),
{
    let i = job_pos(jobs, id);
    assert(jobs.update(k, job)[i].id == id);
}

impl Store {
    /// The position of the garage user with this id, if any.
    pub(crate) fn find_garage_user(&self, id: u128) -> (r: Option<usize>)
        ensures
            match r {
                Some(i) => i < self@.garage_users.len() && self@.garage_users[i as int].id == id,
                None => !has_garage_user(self@.garage_users, id),
            },
    {
        let mut i: usize = 0;
        while i < self.garage_users.len()
            invariant
                i <= self.garage_users.len(),
                forall|j: int| 0 <= j < i ==> (#[trigger] self@.garage_users[j]).id != id,
            decreases self.garage_users.len() - i,
        {
            if self.garage_users[i].id == id {
                return Some(i);
            }
            i += 1;
        }
        None
    }

    /// The position of the job with this id, if any.
    pub(crate) fn find_job(&self, id: u128) -> (r: Option<usize>)
        ensures
            match r {
                Some(i) => i < self@.jobs.len() && self@.jobs[i as int].id == id,
                None => !has_job(self@.jobs, id),
            },
    {
        let mut i: usize = 0;
        while i < self.jobs.len()
            invariant
                i <= self.jobs.len(),
                forall|j: int| 0 <= j < i ==> (#[trigger] self@.jobs[j]).id != id,
            decreases self.jobs.len() - i,
        {
            if self.jobs[i].id == id {
                return Some(i);
            }
            i += 1;
        }
        None
    }

    /// The position of the job with this display identifier, if any.
    pub(crate) fn find_job_identifier(&self, identifier: &String) -> (r: Option<usize>)
        ensures
            match r {
                Some(i) => i < self@.jobs.len() && self@.jobs[i as int].job_identifier
                    == identifier@,
                None => !has_job_identifier(self@.jobs, identifier@),
            },
    {
        let mut i: usize = 0;
        while i < self.jobs.len()
            invariant
                i <= self.jobs.len(),
                forall|j: int|
                    0 <= j < i ==> (#[trigger] self@.jobs[j]).job_identifier != identifier@,
            decreases self.jobs.len() - i,
        {
            if self.jobs[i].job_identifier == *identifier {
                return Some(i);
            }
            i += 1;
        }
        None
    }

    /// The position of the part with this id, if any.
    pub(crate) fn find_part(&self, id: u128) -> (r: Option<usize>)
        ensures
            match r {
                Some(i) => i < self@.parts.len() && self@.parts[i as int].id == id,
                None => !has_part(self@.parts, id),
            },
    {
        let mut i: usize = 0;
        while i < self.parts.len()
            invariant
                i <= self.parts.len(),
                forall|j: int| 0 <= j < i ==> (#[trigger] self@.parts[j]).id != id,
            decreases self.parts.len() - i,
        {
            if self.parts[i].id == id {
                return Some(i);
            }
            i += 1;
        }
        None
    }

    /// The position of the ledger entry with this id, if any.
    pub(crate) fn find_entry(&self, id: u128) -> (r: Option<usize>)
        ensures
            match r {
                Some(i) => i < self@.history.len() && self@.history[i as int].id == id,
                None => !has_entry(self@.history, id),
            },
    {
        let mut i: usize = 0;
        while i < self.history.len()
            invariant
                i <= self.history.len(),
                forall|j: int| 0 <= j < i ==> (#[trigger] self@.history[j]).id != id,
            decreases self.history.len() - i,
        {
            if self.history[i].id == id {
                return Some(i);
            }
            i += 1;
        }
        None
    }
}

} // verus!
