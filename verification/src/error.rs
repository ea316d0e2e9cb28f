//! The error taxonomy shared by the engine and the request surface.

use vstd::prelude::*;

verus! {

/// The kind of record a lookup failed to find.
#[derive(Clone, Copy, Debug, PartialEq, Eq, Structural)]
pub enum Entity {
    AdminUser,
    GarageUser,
    Job,
    Part,
}

/// Why the engine refused an operation. A refused operation leaves the
/// store exactly as it was.
#[derive(Clone, Copy, Debug, PartialEq, Eq, Structural)]
pub enum RepoError {
    /// The referenced record is absent, inactive or soft-deleted.
    NotFound(Entity),
    /// A uniqueness rule other than the natural-key merge would be broken.
    Conflict,
    /// The backing store failed; raised by the persistence layer only.
    Persistence,
}

/// Why a credential was rejected.
#[derive(Clone, Copy, Debug, PartialEq, Eq, Structural)]
pub enum AuthError {
    /// No bearer credential was presented, or it was empty.
    MissingCredential,
    /// The token is not a well-formed signed token carrying the claims.
    Malformed,
    /// The signature does not match the token's content.
    BadSignature,
    /// The expiry lies strictly in the past.
    Expired,
    /// The login name is unknown, the account is inactive, or the secret
    /// does not match.
    InvalidCredentials,
}

/// The identifier of a request that failed to parse.
#[derive(Clone, Copy, Debug, PartialEq, Eq, Structural)]
pub enum IdField {
    GarageId,
    UserId,
    JobId,
    PartId,
}

/// A typed failure as it is surfaced to a caller of the request surface.
#[derive(Clone, Copy, Debug, PartialEq, Eq, Structural)]
pub enum ApiError {
    Validation(IdField),
    Auth(AuthError),
    NotFound(Entity),
    Conflict,
    Persistence,
    /// A fault of the service itself that is no store failure.
    Internal,
}

impl ApiError {
    /// The failure a caller sees for an engine error.
    pub open spec fn of_repo(e: RepoError) -> ApiError {
        match e {
            RepoError::NotFound(entity) => ApiError::NotFound(entity),
            RepoError::Conflict => ApiError::Conflict,
            RepoError::Persistence => ApiError::Persistence,
        }
    }

    /// The response class: client faults are 4xx, server faults 5xx.
    pub open spec fn spec_status(self) -> u16 {
        match self {
            ApiError::Validation(_) => 400,
            ApiError::Auth(_) => 401,
            ApiError::NotFound(_) => 404,
            ApiError::Conflict => 500,
            ApiError::Persistence => 500,
            ApiError::Internal => 500,
        }
    }

    /// The short reason that the response gives. A server fault gives the
    /// same reason whatever went wrong, so that nothing internal leaks.
    pub open spec fn spec_reason(self) -> Seq<char> {
        match self {
            ApiError::Validation(IdField::GarageId) => "invalid id"@,
            ApiError::Validation(IdField::UserId) => "invalid user id"@,
            ApiError::Validation(IdField::JobId) => "invalid job id"@,
            ApiError::Validation(IdField::PartId) => "invalid part id"@,
            ApiError::Auth(AuthError::MissingCredential) => {
                "missing or invalid authorization header"@
            },
            ApiError::Auth(AuthError::InvalidCredentials) => "invalid credentials"@,
            ApiError::Auth(_) => "invalid token"@,
            ApiError::NotFound(Entity::AdminUser) => "admin user not found"@,
            ApiError::NotFound(Entity::GarageUser) => "garage user not found or inactive"@,
            ApiError::NotFound(Entity::Job) => "job not found"@,
            ApiError::NotFound(Entity::Part) => "part not found for this job"@,
            ApiError::Conflict => "internal error"@,
            ApiError::Persistence => "internal error"@,
            ApiError::Internal => "internal error"@,
        }
    }

    /// The failure a caller sees for an engine error.
    pub fn from_repo(e: RepoError) -> (r: ApiError)
        ensures
            r == ApiError::of_repo(e),
    {
        match e {
            RepoError::NotFound(entity) => ApiError::NotFound(entity),
            RepoError::Conflict => ApiError::Conflict,
            RepoError::Persistence => ApiError::Persistence,
        }
    }

    /// The status code of the response that reports this failure.
    pub fn status(&self) -> (code: u16)
        ensures
            code == self.spec_status(),
            400 <= code < 600,
    {
        match self {
            ApiError::Validation(_) => 400,
            ApiError::Auth(_) => 401,
            ApiError::NotFound(_) => 404,
            ApiError::Conflict => 500,
            ApiError::Persistence => 500,
            ApiError::Internal => 500,
        }
    }
}

impl ApiError {
    /// The short reason of the response that reports this failure.
    pub fn reason(&self) -> (text: String)
        ensures
            text@ == self.spec_reason(),
    {
        let text = match self {
            ApiError::Validation(IdField::GarageId) => "invalid id",
            ApiError::Validation(IdField::UserId) => "invalid user id",
            ApiError::Validation(IdField::JobId) => "invalid job id",
            ApiError::Validation(IdField::PartId) => "invalid part id",
            ApiError::Auth(AuthError::MissingCredential) => {
                "missing or invalid authorization header"
            },
            ApiError::Auth(AuthError::InvalidCredentials) => "invalid credentials",
            ApiError::Auth(_) => "invalid token",
            ApiError::NotFound(Entity::AdminUser) => "admin user not found",
            ApiError::NotFound(Entity::GarageUser) => "garage user not found or inactive",
            ApiError::NotFound(Entity::Job) => "job not found",
            ApiError::NotFound(Entity::Part) => "part not found for this job",
            ApiError::Conflict => "internal error",
            ApiError::Persistence => "internal error",
            ApiError::Internal => "internal error",
        };
        text.to_owned()
    }
}

/// An outcome of the engine as a caller of the request surface sees it.
pub open spec fn surfaced<T>(r: Result<T, RepoError>) -> Result<T, ApiError> {
    match r {
        Ok(t) => Ok(t),
        Err(e) => Err(ApiError::of_repo(e)),
    }
}

} // verus!
