//! The token authority: issues signed session tokens and verifies them.
//! Tokens are bearer credentials: stateless, and valid until they expire.

use vstd::prelude::*;
use jsonwebtoken::errors::ErrorKind;
use jsonwebtoken::{decode, encode, Algorithm, DecodingKey, EncodingKey, Header, Validation};
use serde_json::Value;
use crate::auth::extractor::{Claims, ClaimsView};
use crate::clock::unix_now;
use crate::error::AuthError;
use crate::garage::models::viewed;

verus! {

/// Why no token was issued.
#[derive(Clone, Copy, Debug, PartialEq, Eq, Structural)]
pub enum TokenError {
    /// The expiry is before the Unix epoch or beyond what a token can hold.
    ExpiryOutOfRange,
    /// The token could not be encoded or signed.
    Signing,
}

/// The claims found in the payload of a token whose signature holds; each
/// one is absent where the payload lacks it or holds it in another type.
#[derive(Debug)]
pub struct RawClaims {
    pub sub: Option<String>,
    pub username: Option<String>,
    pub role: Option<String>,
    pub exp: Option<u64>,
}

pub struct RawClaimsView {
    pub sub: Option<Seq<char>>,
    pub username: Option<Seq<char>>,
    pub role: Option<Seq<char>>,
    pub exp: Option<u64>,
}

impl View for RawClaims {
    type V = RawClaimsView;

    open spec fn view(&self) -> RawClaimsView {
        RawClaimsView {
            sub: crate::text::opt_text(self.sub),
            username: crate::text::opt_text(self.username),
            role: crate::text::opt_text(self.role),
            exp: self.exp,
        }
    }
}

/// The payload that carries these claims.
pub open spec fn raw_of(claims: ClaimsView) -> RawClaimsView {
    RawClaimsView {
        sub: Some(claims.sub),
        username: Some(claims.username),
        role: Some(claims.role),
        exp: Some(claims.exp as u64),
    }
}

/// The outcome of decoding a token whose signature holds.
pub open spec fn accepted(raw: RawClaimsView) -> Result<RawClaimsView, AuthError> {
    Ok(raw)
}

/// The token that `jsonwebtoken::encode` makes of these claims under this
/// secret, with the HS256 header.
pub uninterp spec fn hs256_token(claims: ClaimsView, secret: Seq<u8>) -> Result<
    Seq<char>,
    TokenError,
>;

/// What `jsonwebtoken::decode` finds in a token under this secret, with
/// HS256 as the only algorithm admitted and without looking at the clock.
pub uninterp spec fn hs256_payload(token: Seq<char>, secret: Seq<u8>) -> Result<
    RawClaimsView,
    AuthError,
>;

/// `jsonwebtoken::encode` with `Header::default()` (HS256) and
/// `EncodingKey::from_secret`, on a JSON object of the four claims.
///
/// The contract names the result, and claims of a token that comes out
/// what the crate's `decode` shows of it: under the same secret it decodes
/// to the claims that went in.
#[verifier::external_body]
fn encode_hs256(claims: &Claims, secret: &[u8]) -> (r: Result<String, TokenError>)
    ensures
        viewed(r) == hs256_token(claims@, secret@),
        r matches Ok(token) ==> hs256_payload(token@, secret@) == accepted(raw_of(claims@)),
{
    let mut payload = serde_json::Map::new();
    payload.insert("sub".to_owned(), Value::from(claims.sub.as_str()));
    payload.insert("username".to_owned(), Value::from(claims.username.as_str()));
    payload.insert("role".to_owned(), Value::from(claims.role.as_str()));
    payload.insert("exp".to_owned(), Value::from(claims.exp));
    match encode(&Header::default(), &payload, &EncodingKey::from_secret(secret)) {
        Ok(token) => Ok(token),
        Err(_) => Err(TokenError::Signing),
    }
}

/// `jsonwebtoken::decode` with `DecodingKey::from_secret` and the
/// validation of `Validation::new(Algorithm::HS256)` with `validate_exp`
/// switched off, so that the outcome depends on the token and the secret
/// alone.
///
/// A signature that does not match is `BadSignature`; every other refusal
/// of the crate is `Malformed`. Of a payload it accepts, the four claims
/// are picked by name; one that is absent, or is no text (for the expiry:
/// no unsigned integer), is left out.
#[verifier::external_body]
fn decode_hs256(token: &str, secret: &[u8]) -> (r: Result<RawClaims, AuthError>)
    ensures
        viewed(r) == hs256_payload(token@, secret@),
{
    let mut rules = Validation::new(Algorithm::HS256);
    rules.validate_exp = false;
    match decode::<Value>(token, &DecodingKey::from_secret(secret), &rules) {
        Ok(t) => Ok(RawClaims {
            sub: t.claims["sub"].as_str().map(str::to_owned),
            username: t.claims["username"].as_str().map(str::to_owned),
            role: t.claims["role"].as_str().map(str::to_owned),
            exp: t.claims["exp"].as_u64(),
        }),
        Err(e) => Err(match e.kind() {
            ErrorKind::InvalidSignature => AuthError::BadSignature,
            _ => AuthError::Malformed,
        }),
    }
}

/// The expiry of a token issued at `now` for `ttl_hours` hours.
pub open spec fn expiry_at(now: i64, ttl_hours: i64) -> int {
    now + ttl_hours * 3600
}

/// What issuing a token at `now` for `ttl_hours` hours comes to.
///
/// Where the expiry is before the Unix epoch or beyond what the claims can
/// hold, no token is issued. Else the outcome is that of encoding the
/// claims under the secret, and a token that comes out decodes under the
/// same secret to exactly these claims.
pub open spec fn issued(
    r: Result<Seq<char>, TokenError>,
    secret: Seq<u8>,
    sub: Seq<char>,
    username: Seq<char>,
    role: Seq<char>,
    ttl_hours: i64,
    now: i64,
) -> bool {
    if !(0 <= expiry_at(now, ttl_hours) <= usize::MAX) {
        r == Err::<Seq<char>, TokenError>(TokenError::ExpiryOutOfRange)
    } else {
        let claims = ClaimsView { sub, username, role, exp: expiry_at(now, ttl_hours) as usize };
        &&& r == hs256_token(claims, secret)
        &&& r matches Ok(token) ==> hs256_payload(token, secret) == accepted(raw_of(claims))
    }
}

/// What becomes of claims at a given time: they hold up to their expiry
/// and are expired after it.
pub open spec fn expiring(claims: ClaimsView, at: i64) -> Result<ClaimsView, AuthError> {
    if claims.exp < at {
        Err(AuthError::Expired)
    } else {
        Ok(claims)
    }
}

/// What verification makes of a decoded payload at a given time.
///
/// A token that did not decode is refused for the reason it did not. A
/// payload that lacks one of the four claims, or whose expiry does not fit
/// the claims, is `Malformed`. An expiry strictly before `now` is
/// `Expired`. What is left are the claims.
pub open spec fn verify_spec(payload: Result<RawClaimsView, AuthError>, now: i64) -> Result<
    ClaimsView,
    AuthError,
> {
    match payload {
        Err(e) => Err(e),
        Ok(raw) => {
            if raw.sub is None || raw.username is None || raw.role is None || raw.exp is None {
                Err(AuthError::Malformed)
            } else if raw.exp->0 > usize::MAX {
                Err(AuthError::Malformed)
            } else if raw.exp->0 < now {
                Err(AuthError::Expired)
            } else {
                Ok(
                    ClaimsView {
                        sub: raw.sub->0,
                        username: raw.username->0,
                        role: raw.role->0,
                        exp: raw.exp->0 as usize,
                    },
                )
            }
        },
    }
}

/// The secret that tokens are signed with, held by whoever issues or
/// verifies them.
pub struct SigningContext {
    secret: Vec<u8>,
}

impl SigningContext {
    /// The bytes of the secret.
    pub closed spec fn secret(&self) -> Seq<u8> {
        self.secret@
    }

    /// A signing context for this secret.
    pub fn new(secret: Vec<u8>) -> (ctx: SigningContext)
        ensures
            ctx.secret() == secret@,
    {
        SigningContext { secret }
    }

    /// Decides on a decoded payload at a given time.
    pub fn check_claims(payload: Result<RawClaims, AuthError>, now: i64) -> (r: Result<
        Claims,
        AuthError,
    >)
        ensures
            viewed(r) == verify_spec(viewed(payload), now),
    {
        let raw = match payload {
            Ok(raw) => raw,
            Err(e) => {
                return Err(e);
            },
        };
        match (raw.sub, raw.username, raw.role, raw.exp) {
            (Some(sub), Some(username), Some(role), Some(exp)) => {
                if exp > usize::MAX as u64 {
                    Err(AuthError::Malformed)
                } else if now > 0 && exp < now as u64 {
                    Err(AuthError::Expired)
                } else {
                    Ok(Claims { sub, username, role, exp: exp as usize })
                }
            },
            _ => Err(AuthError::Malformed),
        }
    }

    /// Issues a token for these claims that expires `ttl_hours` hours
    /// after `now`.
    ///
    /// No token is issued for an expiry that the claims cannot hold. A
    /// token that is issued decodes under this context to exactly these
    /// claims; so it verifies to them at every time up to its expiry, and
    /// is refused as expired at every later time.
    pub fn issue(
        &self,
        sub: String,
        username: String,
        role: String,
        ttl_hours: i64,
        now: i64,
    ) -> (r: Result<String, TokenError>)
        ensures
            issued(viewed(r), self.secret(), sub@, username@, role@, ttl_hours, now),
            r matches Ok(token) ==> forall|at: i64|
                #[trigger] verify_spec(hs256_payload(token@, self.secret()), at) == expiring(
                    ClaimsView {
                        sub: sub@,
                        username: username@,
                        role: role@,
                        exp: expiry_at(now, ttl_hours) as usize,
                    },
                    at,
                ),
    {
        let expiry: i128 = (now as i128) + (ttl_hours as i128) * 3600;
        if expiry < 0 || expiry > usize::MAX as i128 {
            return Err(TokenError::ExpiryOutOfRange);
        }
        let claims = Claims { sub, username, role, exp: expiry as usize };
        let r = encode_hs256(&claims, self.secret.as_slice());
        proof {
            assert forall|at: i64| r is Ok implies #[trigger] verify_spec(
                hs256_payload(r->Ok_0@, self.secret()),
                at,
            ) == expiring(claims@, at) by {
                lemma_token_expiry(claims@, at);
            }
        }
        r
    }

    /// Verifies a token at a given time: its signature under this
    /// context, its claims, and its expiry.
    pub fn verify_at(&self, token: &str, now: i64) -> (r: Result<Claims, AuthError>)
        ensures
            viewed(r) == verify_spec(hs256_payload(token@, self.secret()), now),
    {
        Self::check_claims(decode_hs256(token, self.secret.as_slice()), now)
    }

    /// Verifies a token at the current time.
    pub fn verify(&self, token: &str) -> (r: Result<Claims, AuthError>)
        ensures
            exists|now: i64|
                viewed(r) == #[trigger] verify_spec(hs256_payload(token@, self.secret()), now),
            hs256_payload(token@, self.secret()) matches Err(e) ==> r == Err::<Claims, AuthError>(
                e,
            ),
    {
        let now = unix_now();
        self.verify_at(token, now)
    }
}

/// Issues a token for these claims that expires `ttl_hours` hours from
/// now.
pub fn create_token(
    ctx: &SigningContext,
    sub: String,
    username: String,
    role: String,
    ttl_hours: i64,
) -> (r: Result<String, TokenError>)
    ensures
        exists|now: i64| #[trigger]
            issued(viewed(r), ctx.secret(), sub@, username@, role@, ttl_hours, now),
{
    let now = unix_now();
    ctx.issue(sub, username, role, ttl_hours, now)
}

/// Token expiry: a payload that carries claims verifies to exactly these
/// claims at every time up to their expiry, and is refused as expired at
/// every later time.
pub proof fn lemma_token_expiry(claims: ClaimsView, at: i64)
    ensures
        verify_spec(accepted(raw_of(claims)), at) == expiring(claims, at),
{
}

} // verus!
