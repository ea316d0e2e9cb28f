//! The job lifecycle orchestrator: opens a job against resolved identities
//! as one transaction. Either the customer, the vehicle, the job and the
//! first ledger entry are all written, or nothing is.

use vstd::prelude::*;
use vstd::string::StringExecFns;
use crate::error::{Entity, RepoError};
use crate::garage::models::{
    GarageUserView, JobCreateRequest, JobCreateRequestView, JobCreatedResponse,
    JobCreatedResponseView,
};
use crate::garage::resolver::{resolve_customer_spec, resolve_vehicle_spec};
use crate::garage::store::{
    Job, JobView, StatusHistoryEntry, StatusHistoryEntryView, Store, StoreView, customer_pos,
    garage_user_pos, has_entry, has_job, has_job_identifier, lemma_garage_user_pos,
    lemma_history_jobs_push, lemma_history_push, lemma_jobs_push, lemma_ledgers_open,
    lemma_parts_jobs_push, lemma_phone_pos, lemma_vehicle_pos, users_ok,
};
use crate::text::{clone_opt, merge_text, opt_text};

verus! {

/// The identifiers that opening a job may consume: one for each row it may
/// have to insert.
#[derive(Clone, Copy, Debug, PartialEq, Eq, Structural)]
pub struct NewJobIds {
    pub customer: u128,
    pub vehicle: u128,
    pub job: u128,
    pub entry: u128,
}

/// The status every job starts in.
pub open spec fn initial_status() -> Seq<char> {
    "CREATED"@
}

/// The note of the ledger entry that records a job's creation.
pub open spec fn creation_note() -> Seq<char> {
    "Job created"@
}

/// The time a new ledger entry is stamped with: the given time, but never
/// earlier than the newest entry, so that the ledger stays in time order.
pub open spec fn stamp(history: Seq<StatusHistoryEntryView>, now: i64) -> i64 {
    if history.len() > 0 && history.last().created_at > now {
        history.last().created_at
    } else {
        now
    }
}

/// This id belongs to an active garage user.
pub open spec fn acts_for_garage(users: Seq<GarageUserView>, user_id: u128) -> bool {
    exists|i: int| 0 <= i < users.len() && (#[trigger] users[i]).id == user_id && users[i].is_active
}

/// The store after opening a job, and what the caller is told.
///
/// The caller must be an active garage user, else nothing is written and
/// the result is `NotFound(GarageUser)`. Customer and vehicle are resolved
/// with merge; then the job is inserted in the initial status, without
/// remarks, together with the ledger entry of its creation. Where any id
/// or the display identifier is already taken, the result is `Conflict`
/// and the store is the one before the call: no resolved customer or
/// vehicle is kept.
pub open spec fn create_job_spec(
    s: StoreView,
    garage_user_id: u128,
    req: JobCreateRequestView,
    ids: NewJobIds,
    job_identifier: Seq<char>,
    now: i64,
) -> (StoreView, Result<JobCreatedResponseView, RepoError>) {
    if !acts_for_garage(s.garage_users, garage_user_id) {
        (s, Err(RepoError::NotFound(Entity::GarageUser)))
    } else {
        let garage_id = s.garage_users[garage_user_pos(s.garage_users, garage_user_id)].garage_id;
        let (s1, customer) = resolve_customer_spec(s, req.phone, req.customer_name, ids.customer);
        match customer {
            Err(e) => (s, Err(e)),
            Ok(customer_id) => {
                let (s2, vehicle) = resolve_vehicle_spec(
                    s1,
                    customer_id,
                    req.vehicle_number,
                    req.vehicle_make,
                    req.vehicle_model,
                    ids.vehicle,
                );
                match vehicle {
                    Err(e) => (s, Err(e)),
                    Ok(vehicle_id) => {
                        if has_job(s2.jobs, ids.job) || has_job_identifier(s2.jobs, job_identifier)
                            || has_entry(s2.history, ids.entry) {
                            (s, Err(RepoError::Conflict))
                        } else {
                            let owner_name = s2.customers[customer_pos(
                                s2.customers,
                                customer_id,
                            )].name;
                            let job = JobView {
                                id: ids.job,
                                job_identifier,
                                garage_id,
                                vehicle_id,
                                customer_phone: req.phone,
                                customer_name: owner_name,
                                complaint: req.complaint,
                                estimated_delivery_date: req.estimated_delivery_date,
                                estimated_time: req.estimated_time,
                                status: initial_status(),
                                remarks: None,
                                deleted: false,
                            };
                            let entry = StatusHistoryEntryView {
                                id: ids.entry,
                                job_id: ids.job,
                                from_status: None,
                                to_status: initial_status(),
                                note: Some(creation_note()),
                                created_at: stamp(s2.history, now),
                            };
                            (
                                StoreView {
                                    jobs: s2.jobs.push(job),
                                    history: s2.history.push(entry),
                                    ..s2
                                },
                                Ok(
                                    JobCreatedResponseView {
                                        job_id: ids.job,
                                        job_identifier,
                                        vehicle_id,
                                        customer_id,
                                        vehicle_number: req.vehicle_number,
                                        owner_name,
                                        estimated_delivery_date: req.estimated_delivery_date,
                                        estimated_time: req.estimated_time,
                                        status: initial_status(),
                                    },
                                ),
                            )
                        }
                    },
                }
            },
        }
    }
}

/// Among users with distinct ids, the one user with a given id decides
/// whether that id acts for a garage.
pub proof fn lemma_active_user(users: Seq<GarageUserView>, i: int)
    requires
        users_ok(users),
        0 <= i < users.len(),
    ensures
        acts_for_garage(users, users[i].id) <==> users[i].is_active,
{
    reveal(users_ok);
}

impl Store {
    /// The time to stamp a new ledger entry with.
    pub(crate) fn next_stamp(&self, now: i64) -> (t: i64)
        ensures
            t == stamp(self@.history, now),
    {
        let n = self.history.len();
        if n > 0 && self.history[n - 1].created_at > now {
            self.history[n - 1].created_at
        } else {
            now
        }
    }

    /// Opens a job for the garage that `garage_user_id` acts for.
    ///
    /// On success the store holds the merged customer and vehicle, the new
    /// job in the initial status and its first ledger entry. On failure the
    /// store is unchanged.
    pub fn create_job(
        &mut self,
        garage_user_id: u128,
        req: &JobCreateRequest,
        ids: NewJobIds,
        job_identifier: String,
        now: i64,
    ) -> (r: Result<JobCreatedResponse, RepoError>)
        requires
            old(self).wf(),
        ensures
            final(self).wf(),
            final(self)@ == create_job_spec(
                old(self)@,
                garage_user_id,
                req@,
                ids,
                job_identifier@,
                now,
            ).0,
            match r {
                Ok(resp) => Ok::<JobCreatedResponseView, RepoError>(resp@) == create_job_spec(
                    old(self)@,
                    garage_user_id,
                    req@,
                    ids,
                    job_identifier@,
                    now,
                ).1,
                Err(e) => Err::<JobCreatedResponseView, RepoError>(e) == create_job_spec(
                    old(self)@,
                    garage_user_id,
                    req@,
                    ids,
                    job_identifier@,
                    now,
                ).1,
            },
            r is Err ==> *final(self) == *old(self),
    {
        let garage_id = match self.find_garage_user(garage_user_id) {
            Some(g) => {
                proof {
                    lemma_garage_user_pos(self@.garage_users, g as int);
                    lemma_active_user(self@.garage_users, g as int);
                }
                if !self.garage_users[g].is_active {
                    return Err(RepoError::NotFound(Entity::GarageUser));
                }
                self.garage_users[g].garage_id
            },
            None => {
                return Err(RepoError::NotFound(Entity::GarageUser));
            },
        };
        // Every check comes before the first write, so that a refusal
        // leaves nothing behind.
        let ghost customer_row: int;
        let (customer_id, owner_name) = match self.find_phone(&req.phone) {
            Some(i) => {
                proof {
                    lemma_phone_pos(self@.customers, i as int);
                    customer_row = i as int;
                }
                (self.customers[i].id, merge_text(&req.customer_name, &self.customers[i].name))
            },
            None => {
                if self.find_customer(ids.customer).is_some() {
                    return Err(RepoError::Conflict);
                }
                proof {
                    customer_row = self@.customers.len() as int;
                }
                (ids.customer, clone_opt(&req.customer_name))
            },
        };
        let vehicle_id = match self.find_vehicle_key(customer_id, &req.vehicle_number) {
            Some(v) => {
                proof {
                    lemma_vehicle_pos(self@.vehicles, v as int);
                }
                self.vehicles[v].id
            },
            None => {
                if self.find_vehicle(ids.vehicle).is_some() {
                    return Err(RepoError::Conflict);
                }
                ids.vehicle
            },
        };
        if self.find_job(ids.job).is_some() || self.find_job_identifier(&job_identifier).is_some()
            || self.find_entry(ids.entry).is_some() {
            return Err(RepoError::Conflict);
        }
        // From here on nothing is refused: that has been ruled out above.
        let customer = self.resolve_customer(&req.phone, &req.customer_name, ids.customer);
        let vehicle = self.resolve_vehicle(
            customer_id,
            &req.vehicle_number,
            &req.vehicle_make,
            &req.vehicle_model,
            ids.vehicle,
        );
        let ghost s2 = self@;
        proof {
            assert(customer == Ok::<u128, RepoError>(customer_id));
            assert(vehicle == Ok::<u128, RepoError>(vehicle_id));
            assert(s2.customers[customer_row].id == customer_id);
            lemma_phone_pos(s2.customers, customer_row);
        }
        let created_at = self.next_stamp(now);
        let status = String::from_str("CREATED");
        let ghost job = JobView {
            id: ids.job,
            job_identifier: job_identifier@,
            garage_id,
            vehicle_id,
            customer_phone: req.phone@,
            customer_name: opt_text(owner_name),
            complaint: opt_text(req.complaint),
            estimated_delivery_date: req.estimated_delivery_date,
            estimated_time: opt_text(req.estimated_time),
            status: initial_status(),
            remarks: None,
            deleted: false,
        };
        let ghost entry = StatusHistoryEntryView {
            id: ids.entry,
            job_id: ids.job,
            from_status: None,
            to_status: initial_status(),
            note: Some(creation_note()),
            created_at,
        };
        self.jobs.push(
            Job {
                id: ids.job,
                job_identifier: job_identifier.clone(),
                garage_id,
                vehicle_id,
                customer_phone: req.phone.clone(),
                customer_name: clone_opt(&owner_name),
                complaint: clone_opt(&req.complaint),
                estimated_delivery_date: req.estimated_delivery_date,
                estimated_time: clone_opt(&req.estimated_time),
                status: status.clone(),
                remarks: None,
                deleted: false,
            },
        );
        self.history.push(
            StatusHistoryEntry {
                id: ids.entry,
                job_id: ids.job,
                from_status: None,
                to_status: status.clone(),
                note: Some(String::from_str("Job created")),
                created_at,
            },
        );
        proof {
            assert(self@.jobs =~= s2.jobs.push(job));
            assert(self@.history =~= s2.history.push(entry));
            lemma_jobs_push(s2.jobs, job);
            lemma_parts_jobs_push(s2.parts, s2.jobs, job);
            lemma_history_jobs_push(s2.history, s2.jobs, job);
            assert(s2.jobs.push(job)[s2.jobs.len() as int].id == job.id);
            lemma_history_push(s2.history, s2.jobs.push(job), entry);
            lemma_ledgers_open(s2.jobs, s2.history, job, entry);
        }
        Ok(
            JobCreatedResponse {
                job_id: ids.job,
                job_identifier,
                vehicle_id,
                customer_id,
                vehicle_number: req.vehicle_number.clone(),
                owner_name,
                estimated_delivery_date: req.estimated_delivery_date,
                estimated_time: clone_opt(&req.estimated_time),
                status,
            },
        )
    }
}

} // verus!
