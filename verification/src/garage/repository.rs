//! The repository: the operations of the garage surface as callers use
//! them. Where an operation inserts rows, the repository draws their
//! identifiers and the time, and hands them to the engine.

use vstd::prelude::*;
use vstd::string::StringExecFns;
use crate::clock::unix_now;
use crate::error::{Entity, RepoError};
use crate::garage::ledger::transition_spec;
use crate::garage::models::{
    GarageUser, JobCreateRequest, JobCreatedResponse, JobDetailsResponse, JobListItem,
    JobPartCreateItem, JobPartItem, JobPartUpdateRequest, JobStatusUpdateRequest,
    JobStatusUpdateResponse, viewed, viewed_list, views,
};
use crate::garage::orchestrator::{NewJobIds, acts_for_garage, create_job_spec};
use crate::garage::parts::{
    NewPart, NewPartView, add_parts_spec, remove_part_spec, update_part_spec,
};
use crate::garage::queries::{job_details_spec, job_list_spec, named};
use crate::garage::store::{Store, live_job};
use crate::ident::{fresh_uuid, render_uuid, uuid_text};
use crate::text::opt_text;

verus! {

/// The display identifier of a job: a fixed prefix and the text of a
/// random 128-bit identifier.
pub open spec fn job_identifier_of(seed: u128) -> Seq<char> {
    "JOB-"@ + uuid_text(seed)
}

/// The parts to insert for a request: each part given, under the id drawn
/// for it.
pub open spec fn drafted(parts: Seq<JobPartCreateItem>, ids: Seq<u128>) -> Seq<NewPartView> {
    Seq::new(
        parts.len(),
        |i: int|
            NewPartView {
                id: ids[i],
                name: parts[i].name@,
                quantity: parts[i].quantity,
                unit_price: parts[i].unit_price,
                tax_percent: parts[i].tax_percent,
            },
    )
}

/// The operations of the garage surface.
pub struct GarageRepo;

impl GarageRepo {
    /// The display identifier made from a seed.
    pub fn job_identifier(seed: u128) -> (r: String)
        ensures
            r@ == job_identifier_of(seed),
    {
        let text = render_uuid(seed);
        String::from_str("JOB-").concat(text.as_str())
    }

    /// The first garage user with this login name, or
    /// `NotFound(GarageUser)`.
    pub fn find_user_by_username(store: &Store, username: &str) -> (r: Result<
        GarageUser,
        RepoError,
    >)
        ensures
            match r {
                Ok(user) => exists|i: int|
                    0 <= i < store@.garage_users.len() && user@ == store@.garage_users[i] && named(
                        #[trigger] store@.garage_users[i],
                        username@,
                    ) && forall|j: int|
                        0 <= j < i ==> !named(#[trigger] store@.garage_users[j], username@),
                Err(e) => e == RepoError::NotFound(Entity::GarageUser) && forall|i: int|
                    0 <= i < store@.garage_users.len() ==> !named(
                        #[trigger] store@.garage_users[i],
                        username@,
                    ),
            },
    {
        let name = username.to_owned();
        store.user_by_username(&name)
    }

    /// The jobs of the garage that a user belongs to, newest first; none
    /// where the user is unknown.
    pub fn list_jobs_for_garage_user(store: &Store, user_id: u128) -> (r: Result<
        Vec<JobListItem>,
        RepoError,
    >)
        requires
            store.wf(),
        ensures
            viewed_list(r) == Ok::<_, RepoError>(job_list_spec(store@, user_id)),
    {
        Ok(store.job_list(user_id))
    }

    /// Opens a job for the garage that `garage_user_id` acts for, under
    /// identifiers drawn at random.
    ///
    /// Whatever is drawn, the outcome is the one `create_job_spec` gives
    /// for it: an unknown or inactive caller is refused, and any refusal
    /// leaves the store as it was.
    pub fn create_job_with_entities(
        store: &mut Store,
        garage_user_id: u128,
        req: &JobCreateRequest,
    ) -> (r: Result<JobCreatedResponse, RepoError>)
        requires
            old(store).wf(),
        ensures
            final(store).wf(),
            exists|ids: NewJobIds, seed: u128, now: i64|
                (final(store)@, viewed(r)) == #[trigger] create_job_spec(
                    old(store)@,
                    garage_user_id,
                    req@,
                    ids,
                    job_identifier_of(seed),
                    now,
                ),
            !acts_for_garage(old(store)@.garage_users, garage_user_id) ==> r is Err && r->Err_0
                == RepoError::NotFound(Entity::GarageUser),
            r is Err ==> *final(store) == *old(store),
    {
        let ids = NewJobIds {
            customer: fresh_uuid(),
            vehicle: fresh_uuid(),
            job: fresh_uuid(),
            entry: fresh_uuid(),
        };
        let seed = fresh_uuid();
        let now = unix_now();
        let r = store.create_job(garage_user_id, req, ids, Self::job_identifier(seed), now);
        assert((final(store)@, viewed(r)) == create_job_spec(
            old(store)@,
            garage_user_id,
            req@,
            ids,
            job_identifier_of(seed),
            now,
        ));
        r
    }

    /// A job with its vehicle, its owner, its parts and its ledger.
    pub fn get_job_details(store: &Store, job_id: u128) -> (r: Result<
        JobDetailsResponse,
        RepoError,
    >)
        requires
            store.wf(),
        ensures
            viewed(r) == job_details_spec(store@, job_id),
    {
        store.job_details(job_id)
    }

    /// Moves a job to a new status, under an entry id drawn at random and
    /// at the current time, and returns the job's whole ledger.
    pub fn update_job_status(store: &mut Store, job_id: u128, body: &JobStatusUpdateRequest) -> (r:
        Result<JobStatusUpdateResponse, RepoError>)
        requires
            old(store).wf(),
        ensures
            final(store).wf(),
            exists|entry_id: u128, now: i64|
                final(store)@ == (#[trigger] transition_spec(
                    old(store)@,
                    job_id,
                    body.to_status@,
                    opt_text(body.note),
                    opt_text(body.remarks),
                    entry_id,
                    now,
                )).0 && (match r {
                    Ok(resp) => Ok::<_, RepoError>(views(resp.status_history@)),
                    Err(e) => Err(e),
                }) == transition_spec(
                    old(store)@,
                    job_id,
                    body.to_status@,
                    opt_text(body.note),
                    opt_text(body.remarks),
                    entry_id,
                    now,
                ).1,
            !live_job(old(store)@.jobs, job_id) ==> r is Err && r->Err_0 == RepoError::NotFound(
                Entity::Job,
            ),
            r is Err ==> *final(store) == *old(store),
    {
        let entry_id = fresh_uuid();
        let now = unix_now();
        store.transition(job_id, body, entry_id, now)
    }

    /// Adds parts to a job, all or none, under ids drawn at random, and
    /// returns the job's parts.
    pub fn add_job_parts(store: &mut Store, job_id: u128, parts: &Vec<JobPartCreateItem>) -> (r:
        Result<Vec<JobPartItem>, RepoError>)
        requires
            old(store).wf(),
        ensures
            final(store).wf(),
            exists|ids: Seq<u128>|
                ids.len() == parts.len() && (final(store)@, viewed_list(r))
                    == #[trigger] add_parts_spec(old(store)@, job_id, drafted(parts@, ids)),
            !live_job(old(store)@.jobs, job_id) ==> r is Err && r->Err_0 == RepoError::NotFound(
                Entity::Job,
            ),
            r is Err ==> *final(store) == *old(store),
    {
        let mut new_parts: Vec<NewPart> = Vec::new();
        let ghost mut ids: Seq<u128> = Seq::empty();
        let mut i: usize = 0;
        while i < parts.len()
            invariant
                i <= parts.len(),
                ids.len() == i,
                new_parts.len() == i,
                forall|k: int|
                    0 <= k < i ==> (#[trigger] new_parts[k])@ == (NewPartView {
                        id: ids[k],
                        name: parts[k].name@,
                        quantity: parts[k].quantity,
                        unit_price: parts[k].unit_price,
                        tax_percent: parts[k].tax_percent,
                    }),
            decreases parts.len() - i,
        {
            let id = fresh_uuid();
            let part = &parts[i];
            new_parts.push(
                NewPart {
                    id,
                    name: part.name.clone(),
                    quantity: part.quantity,
                    unit_price: part.unit_price,
                    tax_percent: part.tax_percent,
                },
            );
            proof {
                ids = ids.push(id);
            }
            i += 1;
        }
        assert(views(new_parts@) =~= drafted(parts@, ids));
        let r = store.add_parts(job_id, &new_parts);
        assert((final(store)@, viewed_list(r)) == add_parts_spec(
            old(store)@,
            job_id,
            drafted(parts@, ids),
        ));
        r
    }

    /// Updates the part with this id under this job: only the fields
    /// supplied change.
    pub fn update_job_part(
        store: &mut Store,
        job_id: u128,
        part_id: u128,
        req: &JobPartUpdateRequest,
    ) -> (r: Result<JobPartItem, RepoError>)
        requires
            old(store).wf(),
        ensures
            final(store).wf(),
            (final(store)@, viewed(r)) == update_part_spec(
                old(store)@,
                job_id,
                part_id,
                opt_text(req.name),
                req.quantity,
                req.unit_price,
                req.tax_percent,
            ),
            r is Err ==> *final(store) == *old(store),
    {
        store.update_part(job_id, part_id, req)
    }

    /// Removes the part with this id under this job and returns the job's
    /// remaining parts.
    pub fn remove_job_part(store: &mut Store, job_id: u128, part_id: u128) -> (r: Result<
        Vec<JobPartItem>,
        RepoError,
    >)
        requires
            old(store).wf(),
        ensures
            final(store).wf(),
            (final(store)@, viewed_list(r)) == remove_part_spec(old(store)@, job_id, part_id),
            r is Err ==> *final(store) == *old(store),
    {
        store.remove_part(job_id, part_id)
    }
}

} // verus!
