//! The tables of a store as a caller may read them, and copies of rows and
//! of whole stores.

use vstd::prelude::*;
use crate::admin::models::AdminUser;
use crate::admin::repository::clone_admin;
use crate::garage::models::{GarageUser, views};
use crate::garage::queries::clone_user;
use crate::garage::store::{Customer, Job, JobPart, StatusHistoryEntry, Store, Vehicle};
use crate::text::clone_opt;

verus! {

/// A copy of a customer.
pub fn clone_customer(row: &Customer) -> (r: Customer)
    ensures
        r@ == row@,
{
    Customer { id: row.id, phone: row.phone.clone(), name: clone_opt(&row.name) }
}

/// A copy of a vehicle.
pub fn clone_vehicle(row: &Vehicle) -> (r: Vehicle)
    ensures
        r@ == row@,
{
    Vehicle {
        id: row.id,
        customer_id: row.customer_id,
        vehicle_number: row.vehicle_number.clone(),
        make: clone_opt(&row.make),
        model: clone_opt(&row.model),
    }
}

/// A copy of a job.
pub fn clone_job(row: &Job) -> (r: Job)
    ensures
        r@ == row@,
{
    Job {
        id: row.id,
        job_identifier: row.job_identifier.clone(),
        garage_id: row.garage_id,
        vehicle_id: row.vehicle_id,
        customer_phone: row.customer_phone.clone(),
        customer_name: clone_opt(&row.customer_name),
        complaint: clone_opt(&row.complaint),
        estimated_delivery_date: row.estimated_delivery_date,
        estimated_time: clone_opt(&row.estimated_time),
        status: row.status.clone(),
        remarks: clone_opt(&row.remarks),
        deleted: row.deleted,
    }
}

/// A copy of a part.
pub fn clone_part(row: &JobPart) -> (r: JobPart)
    ensures
        r@ == row@,
{
    JobPart {
        id: row.id,
        job_id: row.job_id,
        name: row.name.clone(),
        quantity: row.quantity,
        unit_price: row.unit_price,
        tax_percent: row.tax_percent,
    }
}

/// A copy of a ledger entry.
pub fn clone_entry(row: &StatusHistoryEntry) -> (r: StatusHistoryEntry)
    ensures
        r@ == row@,
{
    StatusHistoryEntry {
        id: row.id,
        job_id: row.job_id,
        from_status: clone_opt(&row.from_status),
        to_status: row.to_status.clone(),
        note: clone_opt(&row.note),
        created_at: row.created_at,
    }
}

impl Store {
    /// The administrators' accounts, in the order of their registration.
    pub fn system_users(&self) -> (rows: &Vec<AdminUser>)
        ensures
            views(rows@) == self@.system_users,
    {
        &self.system_users
    }

    /// The garage users, in the order of their registration.
    pub fn garage_users(&self) -> (rows: &Vec<GarageUser>)
        ensures
            views(rows@) == self@.garage_users,
    {
        &self.garage_users
    }

    /// The customers, in the order of their creation.
    pub fn customers(&self) -> (rows: &Vec<Customer>)
        ensures
            views(rows@) == self@.customers,
    {
        &self.customers
    }

    /// The vehicles, in the order of their creation.
    pub fn vehicles(&self) -> (rows: &Vec<Vehicle>)
        ensures
            views(rows@) == self@.vehicles,
    {
        &self.vehicles
    }

    /// The jobs, soft-deleted ones too, in the order of their creation.
    pub fn jobs(&self) -> (rows: &Vec<Job>)
        ensures
            views(rows@) == self@.jobs,
    {
        &self.jobs
    }

    /// The parts of all jobs, in the order of their creation.
    pub fn parts(&self) -> (rows: &Vec<JobPart>)
        ensures
            views(rows@) == self@.parts,
    {
        &self.parts
    }

    /// The ledger entries of all jobs, in the order of their creation.
    pub fn history(&self) -> (rows: &Vec<StatusHistoryEntry>)
        ensures
            views(rows@) == self@.history,
    {
        &self.history
    }

    /// A copy of the store, to go back to where what follows a change
    /// fails.
    pub fn snapshot(&self) -> (copy: Store)
        ensures
            copy@ == self@,
    {
        let mut system_users: Vec<AdminUser> = Vec::new();
        let mut i: usize = 0;
        while i < self.system_users.len()
            invariant
                i <= self.system_users.len(),
                system_users.len() == i,
                forall|k: int|
                    0 <= k < i ==> (#[trigger] system_users[k])@ == self.system_users[k]@,
            decreases self.system_users.len() - i,
        {
            system_users.push(clone_admin(&self.system_users[i]));
            i += 1;
        }
        assert(views(system_users@) =~= views(self.system_users@));
        let mut garage_users: Vec<GarageUser> = Vec::new();
        let mut i: usize = 0;
        while i < self.garage_users.len()
            invariant
                i <= self.garage_users.len(),
                garage_users.len() == i,
                forall|k: int|
                    0 <= k < i ==> (#[trigger] garage_users[k])@ == self.garage_users[k]@,
            decreases self.garage_users.len() - i,
        {
            garage_users.push(clone_user(&self.garage_users[i]));
            i += 1;
        }
        assert(views(garage_users@) =~= views(self.garage_users@));
        let mut customers: Vec<Customer> = Vec::new();
        let mut i: usize = 0;
        while i < self.customers.len()
            invariant
                i <= self.customers.len(),
                customers.len() == i,
                forall|k: int| 0 <= k < i ==> (#[trigger] customers[k])@ == self.customers[k]@,
            decreases self.customers.len() - i,
        {
            customers.push(clone_customer(&self.customers[i]));
            i += 1;
        }
        assert(views(customers@) =~= views(self.customers@));
        let mut vehicles: Vec<Vehicle> = Vec::new();
        let mut i: usize = 0;
        while i < self.vehicles.len()
            invariant
                i <= self.vehicles.len(),
                vehicles.len() == i,
                forall|k: int| 0 <= k < i ==> (#[trigger] vehicles[k])@ == self.vehicles[k]@,
            decreases self.vehicles.len() - i,
        {
            vehicles.push(clone_vehicle(&self.vehicles[i]));
            i += 1;
        }
        assert(views(vehicles@) =~= views(self.vehicles@));
        let mut jobs: Vec<Job> = Vec::new();
        let mut i: usize = 0;
        while i < self.jobs.len()
            invariant
                i <= self.jobs.len(),
                jobs.len() == i,
                forall|k: int| 0 <= k < i ==> (#[trigger] jobs[k])@ == self.jobs[k]@,
            decreases self.jobs.len() - i,
        {
            jobs.push(clone_job(&self.jobs[i]));
            i += 1;
        }
        assert(views(jobs@) =~= views(self.jobs@));
        let mut parts: Vec<JobPart> = Vec::new();
        let mut i: usize = 0;
        while i < self.parts.len()
            invariant
                i <= self.parts.len(),
                parts.len() == i,
                forall|k: int| 0 <= k < i ==> (#[trigger] parts[k])@ == self.parts[k]@,
            decreases self.parts.len() - i,
        {
            parts.push(clone_part(&self.parts[i]));
            i += 1;
        }
        assert(views(parts@) =~= views(self.parts@));
        let mut history: Vec<StatusHistoryEntry> = Vec::new();
        let mut i: usize = 0;
        while i < self.history.len()
            invariant
                i <= self.history.len(),
                history.len() == i,
                forall|k: int| 0 <= k < i ==> (#[trigger] history[k])@ == self.history[k]@,
            decreases self.history.len() - i,
        {
            history.push(clone_entry(&self.history[i]));
            i += 1;
        }
        assert(views(history@) =~= views(self.history@));
        Store { system_users, garage_users, customers, vehicles, jobs, parts, history }
    }
}

} // verus!
