//! Reads over the store, and the two writes that stand outside the job
//! lifecycle: registering a garage user and soft-deleting a job. Every read
//! leaves soft-deleted jobs out.

use vstd::prelude::*;
use crate::error::{Entity, RepoError};
use crate::garage::ledger::ledger_items;
use crate::garage::loader::users_obey;
use crate::garage::models::{
    GarageUser, GarageUserView, JobDetailsResponse, JobDetailsResponseView, JobListItem,
    JobListItemView, views,
};
use crate::garage::parts::part_items;
use crate::garage::store::{
    CustomerView, Job, JobView, Store, StoreView, VehicleView, customer_pos, garage_user_pos,
    has_customer, has_garage_user, has_vehicle, history_of, job_pos, lemma_garage_user_pos,
    lemma_history_jobs_update, lemma_job_pos, lemma_jobs_update, lemma_ledgers_job_kept,
    lemma_parts_jobs_update, lemma_phone_pos, lemma_users_push, lemma_vehicle_pos, live_job,
    parts_of, users_ok, vehicle_pos,
};
use crate::text::{clone_opt, opt_text};

verus! {

/// The vehicle a job is about, where the store knows it.
pub open spec fn vehicle_of(s: StoreView, job: JobView) -> Option<VehicleView> {
    if has_vehicle(s.vehicles, job.vehicle_id) {
        Some(s.vehicles[vehicle_pos(s.vehicles, job.vehicle_id)])
    } else {
        None
    }
}

/// The owner of a job's vehicle, where the store knows both.
pub open spec fn owner_of(s: StoreView, job: JobView) -> Option<CustomerView> {
    match vehicle_of(s, job) {
        Some(v) => if has_customer(s.customers, v.customer_id) {
            Some(s.customers[customer_pos(s.customers, v.customer_id)])
        } else {
            None
        },
        None => None,
    }
}

/// The registration number of a job's vehicle.
pub open spec fn vehicle_number_of(s: StoreView, job: JobView) -> Option<Seq<char>> {
    match vehicle_of(s, job) {
        Some(v) => Some(v.vehicle_number),
        None => None,
    }
}

/// The make of a job's vehicle.
pub open spec fn vehicle_make_of(s: StoreView, job: JobView) -> Option<Seq<char>> {
    match vehicle_of(s, job) {
        Some(v) => v.make,
        None => None,
    }
}

/// The model of a job's vehicle.
pub open spec fn vehicle_model_of(s: StoreView, job: JobView) -> Option<Seq<char>> {
    match vehicle_of(s, job) {
        Some(v) => v.model,
        None => None,
    }
}

/// The name of the owner of a job's vehicle.
pub open spec fn owner_name_of(s: StoreView, job: JobView) -> Option<Seq<char>> {
    match owner_of(s, job) {
        Some(c) => c.name,
        None => None,
    }
}

/// What a caller is shown of a job: the job with its vehicle and owner,
/// its parts and its ledger, or `NotFound(Job)` where the job is absent or
/// soft-deleted.
pub open spec fn job_details_spec(s: StoreView, job_id: u128) -> Result<
    JobDetailsResponseView,
    RepoError,
> {
    if !live_job(s.jobs, job_id) {
        Err(RepoError::NotFound(Entity::Job))
    } else {
        let job = s.jobs[job_pos(s.jobs, job_id)];
        Ok(
            JobDetailsResponseView {
                job_id,
                status: job.status,
                remarks: job.remarks,
                vehicle_number: vehicle_number_of(s, job),
                vehicle_make: vehicle_make_of(s, job),
                vehicle_model: vehicle_model_of(s, job),
                owner_name: owner_name_of(s, job),
                parts: part_items(parts_of(s.parts, job_id)),
                status_history: ledger_items(history_of(s.history, job_id)),
            },
        )
    }
}

/// One line of a job list.
pub open spec fn list_item(s: StoreView, job: JobView) -> JobListItemView {
    JobListItemView {
        job_id: job.id,
        vehicle_number: vehicle_number_of(s, job),
        owner_name: owner_name_of(s, job),
        estimated_delivery_date: job.estimated_delivery_date,
        estimated_time: job.estimated_time,
        status: Some(job.status),
    }
}

/// The jobs of one garage that are not soft-deleted, newest first.
pub open spec fn jobs_of_garage(jobs: Seq<JobView>, garage_id: u128) -> Seq<JobView> {
    jobs.reverse().filter(|j: JobView| j.garage_id == garage_id && !j.deleted)
}

/// The job list of the garage that a user belongs to, newest job first;
/// empty where the user is unknown.
pub open spec fn job_list_spec(s: StoreView, user_id: u128) -> Seq<JobListItemView> {
    if !has_garage_user(s.garage_users, user_id) {
        Seq::empty()
    } else {
        let garage_id = s.garage_users[garage_user_pos(s.garage_users, user_id)].garage_id;
        jobs_of_garage(s.jobs, garage_id).map_values(|j: JobView| list_item(s, j))
    }
}

/// This user's login name is this text.
pub open spec fn named(user: GarageUserView, username: Seq<char>) -> bool {
    user.username == Some(username)
}

/// A copy of a garage user.
pub fn clone_user(user: &GarageUser) -> (r: GarageUser)
    ensures
        r@ == user@,
{
    GarageUser {
        id: user.id,
        garage_id: user.garage_id,
        username: clone_opt(&user.username),
        password_hash: clone_opt(&user.password_hash),
        display_name: clone_opt(&user.display_name),
        phone: clone_opt(&user.phone),
        email: clone_opt(&user.email),
        role: user.role.clone(),
        is_active: user.is_active,
    }
}

impl Store {
    /// Number, make and model of a job's vehicle and the name of its owner.
    fn joined(&self, k: usize) -> (r: (
        Option<String>,
        Option<String>,
        Option<String>,
        Option<String>,
    ))
        requires
            self.wf(),
            k < self@.jobs.len(),
        ensures
            opt_text(r.0) == vehicle_number_of(self@, self@.jobs[k as int]),
            opt_text(r.1) == vehicle_make_of(self@, self@.jobs[k as int]),
            opt_text(r.2) == vehicle_model_of(self@, self@.jobs[k as int]),
            opt_text(r.3) == owner_name_of(self@, self@.jobs[k as int]),
    {
        match self.find_vehicle(self.jobs[k].vehicle_id) {
            None => (None, None, None, None),
            Some(v) => {
                proof {
                    lemma_vehicle_pos(self@.vehicles, v as int);
                }
                let vehicle = &self.vehicles[v];
                let owner_name = match self.find_customer(vehicle.customer_id) {
                    None => None,
                    Some(c) => {
                        proof {
                            lemma_phone_pos(self@.customers, c as int);
                        }
                        clone_opt(&self.customers[c].name)
                    },
                };
                (
                    Some(vehicle.vehicle_number.clone()),
                    clone_opt(&vehicle.make),
                    clone_opt(&vehicle.model),
                    owner_name,
                )
            },
        }
    }

    /// A job with its vehicle, its owner, its parts and its ledger.
    pub fn job_details(&self, job_id: u128) -> (r: Result<JobDetailsResponse, RepoError>)
        requires
            self.wf(),
        ensures
            match r {
                Ok(resp) => Ok::<JobDetailsResponseView, RepoError>(resp@) == job_details_spec(
                    self@,
                    job_id,
                ),
                Err(e) => Err::<JobDetailsResponseView, RepoError>(e) == job_details_spec(
                    self@,
                    job_id,
                ),
            },
    {
        let k = match self.find_job(job_id) {
            Some(k) => k,
            None => {
                return Err(RepoError::NotFound(Entity::Job));
            },
        };
        proof {
            lemma_job_pos(self@.jobs, k as int);
        }
        if self.jobs[k].deleted {
            return Err(RepoError::NotFound(Entity::Job));
        }
        let (vehicle_number, vehicle_make, vehicle_model, owner_name) = self.joined(k);
        Ok(
            JobDetailsResponse {
                job_id,
                status: self.jobs[k].status.clone(),
                remarks: clone_opt(&self.jobs[k].remarks),
                vehicle_number,
                vehicle_make,
                vehicle_model,
                owner_name,
                parts: self.parts_for(job_id),
                status_history: self.ledger_for(job_id),
            },
        )
    }

    /// The job list of the garage that a user belongs to, newest first.
    pub fn job_list(&self, user_id: u128) -> (items: Vec<JobListItem>)
        requires
            self.wf(),
        ensures
            views(items@) == job_list_spec(self@, user_id),
    {
        let mut items: Vec<JobListItem> = Vec::new();
        let garage_id = match self.find_garage_user(user_id) {
            None => {
                assert(views(items@) =~= Seq::empty());
                return items;
            },
            Some(g) => {
                proof {
                    lemma_garage_user_pos(self@.garage_users, g as int);
                }
                self.garage_users[g].garage_id
            },
        };
        let n = self.jobs.len();
        let ghost newest_first = self@.jobs.reverse();
        let ghost of_garage = |j: JobView| j.garage_id == garage_id && !j.deleted;
        let ghost line = |j: JobView| list_item(self@, j);
        let mut i: usize = n;
        proof {
            reveal(Seq::filter);
            assert(newest_first.take(0) =~= Seq::empty());
            assert(views(items@) =~= newest_first.take(0).filter(of_garage).map_values(line));
        }
        while i > 0
            invariant
                self.wf(),
                i <= n,
                n == self.jobs.len(),
                newest_first == self@.jobs.reverse(),
                of_garage == (|j: JobView| j.garage_id == garage_id && !j.deleted),
                line == (|j: JobView| list_item(self@, j)),
                views(items@) == newest_first.take(n - i).filter(of_garage).map_values(line),
            decreases i,
        {
            let ghost before = views(items@);
            let ghost seen = newest_first.take(n - i);
            i -= 1;
            let job = &self.jobs[i];
            if job.garage_id == garage_id && !job.deleted {
                let (vehicle_number, _, _, owner_name) = self.joined(i);
                items.push(
                    JobListItem {
                        job_id: job.id,
                        vehicle_number,
                        owner_name,
                        estimated_delivery_date: job.estimated_delivery_date,
                        estimated_time: clone_opt(&job.estimated_time),
                        status: Some(job.status.clone()),
                    },
                );
            }
            proof {
                let j = self@.jobs[i as int];
                assert(newest_first[n - i - 1] == j);
                assert(newest_first.take(n - i) =~= seen.push(j));
                seen.lemma_filter_push(j, of_garage);
                if of_garage(j) {
                    assert(views(items@) =~= before.push(list_item(self@, j)));
                    assert(seen.filter(of_garage).push(j).map_values(line) =~= seen.filter(
                        of_garage,
                    ).map_values(line).push(line(j)));
                }
            }
        }
        proof {
            assert(newest_first.take(n as int) =~= newest_first);
        }
        items
    }

    /// The first garage user with this login name.
    pub fn user_by_username(&self, username: &String) -> (r: Result<GarageUser, RepoError>)
        ensures
            match r {
                Ok(user) => exists|i: int|
                    0 <= i < self@.garage_users.len() && user@ == self@.garage_users[i] && named(
                        #[trigger] self@.garage_users[i],
                        username@,
                    ) && forall|j: int|
                        0 <= j < i ==> !named(#[trigger] self@.garage_users[j], username@),
                Err(e) => e == RepoError::NotFound(Entity::GarageUser) && forall|i: int|
                    0 <= i < self@.garage_users.len() ==> !named(
                        #[trigger] self@.garage_users[i],
                        username@,
                    ),
            },
    {
        let mut i: usize = 0;
        while i < self.garage_users.len()
            invariant
                i <= self.garage_users.len(),
                forall|j: int| 0 <= j < i ==> !named(#[trigger] self@.garage_users[j], username@),
            decreases self.garage_users.len() - i,
        {
            let hit = match &self.garage_users[i].username {
                Some(name) => *name == *username,
                None => false,
            };
            if hit {
                let user = clone_user(&self.garage_users[i]);
                assert(named(self@.garage_users[i as int], username@));
                return Ok(user);
            }
            i += 1;
        }
        Err(RepoError::NotFound(Entity::GarageUser))
    }

    /// Registers a garage user. Fails with `Conflict`, changing nothing,
    /// where the id is taken.
    pub fn register_garage_user(&mut self, user: GarageUser) -> (r: Result<(), RepoError>)
        requires
            old(self).wf(),
        ensures
            final(self).wf(),
            has_garage_user(old(self)@.garage_users, user.id) ==> r == Err::<(), RepoError>(
                RepoError::Conflict,
            ) && *final(self) == *old(self),
            !has_garage_user(old(self)@.garage_users, user.id) ==> r == Ok::<(), RepoError>(())
                && final(self)@ == (StoreView {
                garage_users: old(self)@.garage_users.push(user@),
                ..old(self)@
            }),
    {
        if self.find_garage_user(user.id).is_some() {
            return Err(RepoError::Conflict);
        }
        let ghost row = user@;
        self.garage_users.push(user);
        proof {
            assert(self@.garage_users =~= old(self)@.garage_users.push(row));
            lemma_users_push(old(self)@.garage_users, row);
        }
        Ok(())
    }

    /// Replaces the garage users by the ones given, as the directory of
    /// garages now has them. Fails with `Conflict`, changing nothing, where
    /// two of them share an id.
    pub fn set_garage_users(&mut self, users: Vec<GarageUser>) -> (r: Result<(), RepoError>)
        requires
            old(self).wf(),
        ensures
            final(self).wf(),
            !users_ok(views(users@)) ==> r == Err::<(), RepoError>(RepoError::Conflict)
                && *final(self) == *old(self),
            users_ok(views(users@)) ==> r == Ok::<(), RepoError>(()) && final(self)@ == (StoreView {
                garage_users: views(users@),
                ..old(self)@
            }),
    {
        if !users_obey(&users) {
            return Err(RepoError::Conflict);
        }
        self.garage_users = users;
        Ok(())
    }

    /// Soft-deletes a job: the row stays, with its parts and its ledger,
    /// and no read shows it any more. Fails with `NotFound(Job)`, changing
    /// nothing, where the job is absent or already deleted.
    pub fn mark_job_deleted(&mut self, job_id: u128) -> (r: Result<(), RepoError>)
        requires
            old(self).wf(),
        ensures
            final(self).wf(),
            !live_job(old(self)@.jobs, job_id) ==> r == Err::<(), RepoError>(
                RepoError::NotFound(Entity::Job),
            ) && *final(self) == *old(self),
            live_job(old(self)@.jobs, job_id) ==> r == Ok::<(), RepoError>(()) && final(self)@ == (
            StoreView {
                jobs: old(self)@.jobs.update(
                    job_pos(old(self)@.jobs, job_id),
                    JobView { deleted: true, ..old(self)@.jobs[job_pos(old(self)@.jobs, job_id)] },
                ),
                ..old(self)@
            }) && !live_job(final(self)@.jobs, job_id),
    {
        let k = match self.find_job(job_id) {
            Some(k) => k,
            None => {
                return Err(RepoError::NotFound(Entity::Job));
            },
        };
        proof {
            lemma_job_pos(self@.jobs, k as int);
        }
        if self.jobs[k].deleted {
            return Err(RepoError::NotFound(Entity::Job));
        }
        let current = &self.jobs[k];
        let row = Job {
            id: current.id,
            job_identifier: current.job_identifier.clone(),
            garage_id: current.garage_id,
            vehicle_id: current.vehicle_id,
            customer_phone: current.customer_phone.clone(),
            customer_name: clone_opt(&current.customer_name),
            complaint: clone_opt(&current.complaint),
            estimated_delivery_date: current.estimated_delivery_date,
            estimated_time: clone_opt(&current.estimated_time),
            status: current.status.clone(),
            remarks: clone_opt(&current.remarks),
            deleted: true,
        };
        let ghost s0 = self@;
        let ghost job = JobView { deleted: true, ..s0.jobs[k as int] };
        self.jobs.set(k, row);
        proof {
            assert(self@.jobs =~= s0.jobs.update(k as int, job));
            lemma_jobs_update(s0.jobs, k as int, job);
            lemma_parts_jobs_update(s0.parts, s0.jobs, k as int, job);
            lemma_history_jobs_update(s0.history, s0.jobs, k as int, job);
            lemma_ledgers_job_kept(s0.jobs, s0.history, k as int, job);
            lemma_job_pos(self@.jobs, k as int);
        }
        Ok(())
    }
}

} // verus!
