//! The request surface of the garage: what each inbound call comes to.
//! Identifiers arrive as text; one that is no identifier is rejected
//! before the store is looked at.

use vstd::prelude::*;
use crate::auth::jwt::{SigningContext, TokenError, create_token, issued};
use crate::error::{ApiError, AuthError, IdField, RepoError, surfaced};
use crate::garage::ledger::transition_spec;
use crate::garage::models::{
    GarageLoginRequest, GarageLoginResponse, GarageUser, JobCreateRequest, JobCreatedResponse,
    JobDetailsResponse, JobListItem, JobPartItem, JobPartUpdateRequest, JobPartsAddRequest,
    JobStatusUpdateRequest, JobStatusUpdateResponse, viewed, viewed_list, views,
};
use crate::garage::orchestrator::{NewJobIds, create_job_spec};
use crate::garage::parts::{add_parts_spec, remove_part_spec, update_part_spec};
use crate::garage::queries::{job_details_spec, job_list_spec};
use crate::garage::repository::{GarageRepo, drafted, job_identifier_of};
use crate::garage::store::Store;
use crate::ident::{parse_uuid, render_uuid, uuid_text, uuid_value};
use crate::text::opt_text;

verus! {

/// The hours a session token lasts.
pub const SESSION_HOURS: i64 = 24;

/// Whether a login attempt is let in: the account exists and is active,
/// and the credential verifier found the secret to match.
pub open spec fn admitted(found: Result<GarageUser, RepoError>, credential_matches: bool) -> bool {
    found matches Ok(user) && user.is_active && credential_matches
}

/// What an admitted login comes to, given the outcome of signing the
/// session token: the response with that token and the account's data, or
/// an internal failure where no token was signed.
pub open spec fn logged_in(
    r: Result<GarageLoginResponse, ApiError>,
    user: GarageUser,
    username: Seq<char>,
    signed: Result<Seq<char>, TokenError>,
) -> bool {
    match signed {
        Ok(token) => r matches Ok(resp) && resp.token@ == token && resp.id == user.id
            && resp.username@ == username && resp.role@ == user.role@ && opt_text(
            resp.display_name,
        ) == opt_text(user.display_name),
        Err(_) => r matches Err(e) && e == ApiError::Internal,
    }
}

/// Completes a login. `found` is the account looked up by the login name,
/// `credential_matches` the verdict of the credential verifier on the
/// secret supplied.
///
/// An attempt that is not admitted is rejected as `InvalidCredentials`,
/// whichever of the reasons holds. An admitted one gets a session token
/// for `SESSION_HOURS` hours whose subject is the text of the account's
/// id; whether a token comes out is decided by the signing alone.
pub fn login(
    ctx: &SigningContext,
    found: Result<GarageUser, RepoError>,
    credential_matches: bool,
    req: GarageLoginRequest,
) -> (r: Result<GarageLoginResponse, ApiError>)
    ensures
        !admitted(found, credential_matches) ==> r is Err && r->Err_0 == ApiError::Auth(
            AuthError::InvalidCredentials,
        ),
        admitted(found, credential_matches) ==> exists|
            now: i64,
            signed: Result<Seq<char>, TokenError>,
        |
            #[trigger] issued(
                signed,
                ctx.secret(),
                uuid_text(found->Ok_0.id),
                req.username@,
                found->Ok_0.role@,
                SESSION_HOURS,
                now,
            ) && logged_in(r, found->Ok_0, req.username@, signed),
{
    let user = match found {
        Ok(user) => user,
        Err(_) => {
            return Err(ApiError::Auth(AuthError::InvalidCredentials));
        },
    };
    if !user.is_active || !credential_matches {
        return Err(ApiError::Auth(AuthError::InvalidCredentials));
    }
    let ghost id_text = uuid_text(user.id);
    let ghost role = user.role@;
    let signed = create_token(
        ctx,
        render_uuid(user.id),
        req.username.clone(),
        user.role.clone(),
        SESSION_HOURS,
    );
    let ghost outcome = viewed(signed);
    let ghost now = choose|now: i64| #[trigger]
        issued(outcome, ctx.secret(), id_text, req.username@, role, SESSION_HOURS, now);
    let r = match signed {
        Ok(token) => Ok(
            GarageLoginResponse {
                token,
                id: user.id,
                username: req.username,
                display_name: user.display_name,
                role: user.role,
            },
        ),
        Err(_) => Err(ApiError::Internal),
    };
    assert(issued(outcome, ctx.secret(), id_text, req.username@, role, SESSION_HOURS, now)
        && logged_in(r, found->Ok_0, req.username@, outcome));
    r
}

/// The jobs of the garage that a user belongs to, newest first.
pub fn list_jobs_for_user(store: &Store, user_id: &str) -> (r: Result<Vec<JobListItem>, ApiError>)
    requires
        store.wf(),
    ensures
        uuid_value(user_id@) is None ==> r is Err && r->Err_0 == ApiError::Validation(
            IdField::UserId,
        ),
        uuid_value(user_id@) matches Some(id) ==> r is Ok && views(r->Ok_0@) == job_list_spec(
            store@,
            id,
        ),
{
    let id = match parse_uuid(user_id) {
        Some(id) => id,
        None => {
            return Err(ApiError::Validation(IdField::UserId));
        },
    };
    match GarageRepo::list_jobs_for_garage_user(store, id) {
        Ok(items) => Ok(items),
        Err(e) => Err(ApiError::from_repo(e)),
    }
}

/// Opens a job for the garage that the user acts for.
pub fn create_job_for_user(store: &mut Store, user_id: &str, req: &JobCreateRequest) -> (r: Result<
    JobCreatedResponse,
    ApiError,
>)
    requires
        old(store).wf(),
    ensures
        final(store).wf(),
        uuid_value(user_id@) is None ==> r is Err && r->Err_0 == ApiError::Validation(
            IdField::UserId,
        ),
        uuid_value(user_id@) matches Some(id) ==> exists|ids: NewJobIds, seed: u128, now: i64|
            final(store)@ == (#[trigger] create_job_spec(
                old(store)@,
                id,
                req@,
                ids,
                job_identifier_of(seed),
                now,
            )).0 && viewed(r) == surfaced(
                create_job_spec(old(store)@, id, req@, ids, job_identifier_of(seed), now).1,
            ),
        r is Err ==> *final(store) == *old(store),
{
    let id = match parse_uuid(user_id) {
        Some(id) => id,
        None => {
            return Err(ApiError::Validation(IdField::UserId));
        },
    };
    match GarageRepo::create_job_with_entities(store, id, req) {
        Ok(created) => Ok(created),
        Err(e) => Err(ApiError::from_repo(e)),
    }
}

/// A job with its vehicle, its owner, its parts and its ledger.
pub fn get_job_details(store: &Store, job_id: &str) -> (r: Result<JobDetailsResponse, ApiError>)
    requires
        store.wf(),
    ensures
        uuid_value(job_id@) is None ==> r is Err && r->Err_0 == ApiError::Validation(
            IdField::JobId,
        ),
        uuid_value(job_id@) matches Some(id) ==> viewed(r) == surfaced(
            job_details_spec(store@, id),
        ),
{
    let id = match parse_uuid(job_id) {
        Some(id) => id,
        None => {
            return Err(ApiError::Validation(IdField::JobId));
        },
    };
    match GarageRepo::get_job_details(store, id) {
        Ok(details) => Ok(details),
        Err(e) => Err(ApiError::from_repo(e)),
    }
}

/// Moves a job to a new status and returns its whole ledger.
pub fn update_job_status(store: &mut Store, job_id: &str, body: &JobStatusUpdateRequest) -> (r:
    Result<JobStatusUpdateResponse, ApiError>)
    requires
        old(store).wf(),
    ensures
        final(store).wf(),
        uuid_value(job_id@) is None ==> r is Err && r->Err_0 == ApiError::Validation(
            IdField::JobId,
        ),
        uuid_value(job_id@) matches Some(id) ==> exists|entry_id: u128, now: i64|
            final(store)@ == (#[trigger] transition_spec(
                old(store)@,
                id,
                body.to_status@,
                opt_text(body.note),
                opt_text(body.remarks),
                entry_id,
                now,
            )).0 && (match r {
                Ok(resp) => Ok(views(resp.status_history@)),
                Err(e) => Err(e),
            }) == surfaced(
                transition_spec(
                    old(store)@,
                    id,
                    body.to_status@,
                    opt_text(body.note),
                    opt_text(body.remarks),
                    entry_id,
                    now,
                ).1,
            ),
        r is Err ==> *final(store) == *old(store),
{
    let id = match parse_uuid(job_id) {
        Some(id) => id,
        None => {
            return Err(ApiError::Validation(IdField::JobId));
        },
    };
    match GarageRepo::update_job_status(store, id, body) {
        Ok(updated) => Ok(updated),
        Err(e) => Err(ApiError::from_repo(e)),
    }
}

/// Removes a part of a job and returns the job's remaining parts.
pub fn delete_job_part(store: &mut Store, job_id: &str, part_id: &str) -> (r: Result<
    Vec<JobPartItem>,
    ApiError,
>)
    requires
        old(store).wf(),
    ensures
        final(store).wf(),
        match (uuid_value(job_id@), uuid_value(part_id@)) {
            (None, _) => r is Err && r->Err_0 == ApiError::Validation(IdField::JobId),
            (Some(_), None) => r is Err && r->Err_0 == ApiError::Validation(IdField::PartId),
            (Some(job), Some(part)) => final(store)@ == remove_part_spec(old(store)@, job, part).0
                && viewed_list(r) == surfaced(remove_part_spec(old(store)@, job, part).1),
        },
        r is Err ==> *final(store) == *old(store),
{
    let job = match parse_uuid(job_id) {
        Some(id) => id,
        None => {
            return Err(ApiError::Validation(IdField::JobId));
        },
    };
    let part = match parse_uuid(part_id) {
        Some(id) => id,
        None => {
            return Err(ApiError::Validation(IdField::PartId));
        },
    };
    match GarageRepo::remove_job_part(store, job, part) {
        Ok(parts) => Ok(parts),
        Err(e) => Err(ApiError::from_repo(e)),
    }
}

/// Adds parts to a job, all or none, and returns the job's parts.
pub fn add_job_parts(store: &mut Store, job_id: &str, body: &JobPartsAddRequest) -> (r: Result<
    Vec<JobPartItem>,
    ApiError,
>)
    requires
        old(store).wf(),
    ensures
        final(store).wf(),
        uuid_value(job_id@) is None ==> r is Err && r->Err_0 == ApiError::Validation(
            IdField::JobId,
        ),
        uuid_value(job_id@) matches Some(id) ==> exists|ids: Seq<u128>|
            ids.len() == body.parts.len() && final(store)@ == (#[trigger] add_parts_spec(
                old(store)@,
                id,
                drafted(body.parts@, ids),
            )).0 && viewed_list(r) == surfaced(
                add_parts_spec(old(store)@, id, drafted(body.parts@, ids)).1,
            ),
        r is Err ==> *final(store) == *old(store),
{
    let id = match parse_uuid(job_id) {
        Some(id) => id,
        None => {
            return Err(ApiError::Validation(IdField::JobId));
        },
    };
    match GarageRepo::add_job_parts(store, id, &body.parts) {
        Ok(parts) => Ok(parts),
        Err(e) => Err(ApiError::from_repo(e)),
    }
}

/// Updates a part of a job: only the fields supplied change.
pub fn update_job_part(
    store: &mut Store,
    job_id: &str,
    part_id: &str,
    req: &JobPartUpdateRequest,
) -> (r: Result<JobPartItem, ApiError>)
    requires
        old(store).wf(),
    ensures
        final(store).wf(),
        match (uuid_value(job_id@), uuid_value(part_id@)) {
            (None, _) => r is Err && r->Err_0 == ApiError::Validation(IdField::JobId),
            (Some(_), None) => r is Err && r->Err_0 == ApiError::Validation(IdField::PartId),
            (Some(job), Some(part)) => final(store)@ == update_part_spec(
                old(store)@,
                job,
                part,
                opt_text(req.name),
                req.quantity,
                req.unit_price,
                req.tax_percent,
            ).0 && viewed(r) == surfaced(
                update_part_spec(
                    old(store)@,
                    job,
                    part,
                    opt_text(req.name),
                    req.quantity,
                    req.unit_price,
                    req.tax_percent,
                ).1,
            ),
        },
        r is Err ==> *final(store) == *old(store),
{
    let job = match parse_uuid(job_id) {
        Some(id) => id,
        None => {
            return Err(ApiError::Validation(IdField::JobId));
        },
    };
    let part = match parse_uuid(part_id) {
        Some(id) => id,
        None => {
            return Err(ApiError::Validation(IdField::PartId));
        },
    };
    match GarageRepo::update_job_part(store, job, part, req) {
        Ok(updated) => Ok(updated),
        Err(e) => Err(ApiError::from_repo(e)),
    }
}

} // verus!
