//! The request surface of the admin side.

use vstd::prelude::*;
use crate::admin::models::{AdminLoginResponse, AdminUser};
use crate::auth::jwt::{SigningContext, TokenError, create_token, issued};
use crate::error::{ApiError, AuthError, RepoError};
use crate::garage::handlers::SESSION_HOURS;
use crate::garage::models::viewed;
use crate::ident::{render_uuid, uuid_text};
use crate::text::opt_text;

verus! {

/// The role that an administrator's session token carries.
pub open spec fn admin_role() -> Seq<char> {
    "ADMIN"@
}

/// What an administrator's login comes to once the secret has matched,
/// given the outcome of signing the session token.
pub open spec fn logged_in(
    r: Result<AdminLoginResponse, ApiError>,
    admin: AdminUser,
    signed: Result<Seq<char>, TokenError>,
) -> bool {
    match signed {
        Ok(token) => r matches Ok(resp) && resp.token@ == token && resp.id == admin.id
            && resp.username@ == admin.username@ && opt_text(resp.display_name) == opt_text(
            admin.display_name,
        ),
        Err(_) => r matches Err(e) && e == ApiError::Internal,
    }
}

/// Completes an administrator's login. `found` is the account looked up
/// by the login name, `credential_matches` the verdict of the credential
/// verifier on the secret supplied.
///
/// An unknown account or a secret that does not match is rejected as
/// `InvalidCredentials`. Else the administrator gets a session token in
/// the admin role whose subject is the text of the account's id; whether
/// a token comes out is decided by the signing alone.
pub fn login(
    ctx: &SigningContext,
    found: Result<AdminUser, RepoError>,
    credential_matches: bool,
) -> (r: Result<AdminLoginResponse, ApiError>)
    ensures
        !(found is Ok && credential_matches) ==> r is Err && r->Err_0 == ApiError::Auth(
            AuthError::InvalidCredentials,
        ),
        found is Ok && credential_matches ==> exists|
            now: i64,
            signed: Result<Seq<char>, TokenError>,
        |
            #[trigger] issued(
                signed,
                ctx.secret(),
                uuid_text(found->Ok_0.id),
                found->Ok_0.username@,
                admin_role(),
                SESSION_HOURS,
                now,
            ) && logged_in(r, found->Ok_0, signed),
{
    let admin = match found {
        Ok(admin) => admin,
        Err(_) => {
            return Err(ApiError::Auth(AuthError::InvalidCredentials));
        },
    };
    if !credential_matches {
        return Err(ApiError::Auth(AuthError::InvalidCredentials));
    }
    let ghost id_text = uuid_text(admin.id);
    let signed = create_token(
        ctx,
        render_uuid(admin.id),
        admin.username.clone(),
        "ADMIN".to_owned(),
        SESSION_HOURS,
    );
    let ghost outcome = viewed(signed);
    let ghost now = choose|now: i64| #[trigger]
        issued(
            outcome,
            ctx.secret(),
            id_text,
            admin.username@,
            admin_role(),
            SESSION_HOURS,
            now,
        );
    let r = match signed {
        Ok(token) => Ok(
            AdminLoginResponse {
                token,
                id: admin.id,
                username: admin.username,
                display_name: admin.display_name,
            },
        ),
        Err(_) => Err(ApiError::Internal),
    };
    assert(issued(
        outcome,
        ctx.secret(),
        id_text,
        found->Ok_0.username@,
        admin_role(),
        SESSION_HOURS,
        now,
    ) && logged_in(r, found->Ok_0, outcome));
    r
}

} // verus!
