//! The request guard: reads the bearer credential of a request, has the
//! token authority verify it, and hands the verified claims on. A request
//! without a usable credential is rejected before its operation runs.

use vstd::prelude::*;
use vstd::string::StrSliceExecFns;
use crate::auth::extractor::{AuthClaims, ClaimsView};
use crate::auth::jwt::{SigningContext, hs256_payload, verify_spec};
use crate::clock::unix_now;
use crate::error::AuthError;
use crate::garage::models::viewed;

verus! {

/// The scheme that introduces a bearer credential.
pub open spec fn scheme() -> Seq<char> {
    seq!['B', 'e', 'a', 'r', 'e', 'r', ' ']
}

/// White space, as Unicode defines it.
pub open spec fn is_space(c: char) -> bool {
    let u = c as u32;
    ||| 0x09 <= u <= 0x0D
    ||| u == 0x20
    ||| u == 0x85
    ||| u == 0xA0
    ||| u == 0x1680
    ||| 0x2000 <= u <= 0x200A
    ||| u == 0x2028
    ||| u == 0x2029
    ||| u == 0x202F
    ||| u == 0x205F
    ||| u == 0x3000
}

/// The text begins with the scheme.
pub open spec fn begins_with_scheme(s: Seq<char>) -> bool {
    s.len() >= 7 && s.subrange(0, 7) == scheme()
}

/// The text without the scheme at its start, however often it is repeated
/// there.
pub open spec fn without_scheme(s: Seq<char>) -> Seq<char>
    decreases s.len(),
{
    if begins_with_scheme(s) {
        without_scheme(s.subrange(7, s.len() as int))
    } else {
        s
    }
}

/// The text without the white space at its start.
pub open spec fn trim_start(s: Seq<char>) -> Seq<char>
    decreases s.len(),
{
    if s.len() > 0 && is_space(s[0]) {
        trim_start(s.subrange(1, s.len() as int))
    } else {
        s
    }
}

/// The text without the white space at its end.
pub open spec fn trim_end(s: Seq<char>) -> Seq<char>
    decreases s.len(),
{
    if s.len() > 0 && is_space(s.last()) {
        trim_end(s.subrange(0, s.len() - 1))
    } else {
        s
    }
}

/// The token that a credential header presents: what follows the scheme,
/// without the white space around it. A header that does not begin with
/// the scheme, or that has nothing after it, presents none.
pub open spec fn bearer_token(header: Seq<char>) -> Option<Seq<char>> {
    if !begins_with_scheme(header) {
        None
    } else {
        let token = trim_end(trim_start(without_scheme(header)));
        if token.len() == 0 {
            None
        } else {
            Some(token)
        }
    }
}

/// The characters of a credential header, where the request has one.
pub open spec fn header_text(header: Option<&str>) -> Option<Seq<char>> {
    match header {
        Some(h) => Some(h@),
        None => None,
    }
}

/// What the guard decides on a request: the missing credential, or what
/// verification makes of the token presented.
pub open spec fn admission_spec(header: Option<Seq<char>>, secret: Seq<u8>, now: i64) -> Result<
    ClaimsView,
    AuthError,
> {
    match header {
        None => Err(AuthError::MissingCredential),
        Some(h) => match bearer_token(h) {
            None => Err(AuthError::MissingCredential),
            Some(token) => verify_spec(hs256_payload(token, secret), now),
        },
    }
}

/// Whether a character is white space.
pub fn is_space_char(c: char) -> (b: bool)
    ensures
        b == is_space(c),
{
    let u = c as u32;
    (0x09 <= u && u <= 0x0D) || u == 0x20 || u == 0x85 || u == 0xA0 || u == 0x1680 || (0x2000 <= u
        && u <= 0x200A) || u == 0x2028 || u == 0x2029 || u == 0x202F || u == 0x205F || u == 0x3000
}

/// Whether the scheme stands in `text` at position `at`.
fn scheme_at(text: &str, at: usize, len: usize) -> (b: bool)
    requires
        len == text@.len(),
        at <= len,
    ensures
        b == begins_with_scheme(text@.subrange(at as int, len as int)),
{
    if len - at < 7 {
        return false;
    }
    let ghost rest = text@.subrange(at as int, len as int);
    let hit = text.get_char(at) == 'B' && text.get_char(at + 1) == 'e' && text.get_char(at + 2)
        == 'a' && text.get_char(at + 3) == 'r' && text.get_char(at + 4) == 'e' && text.get_char(
        at + 5,
    ) == 'r' && text.get_char(at + 6) == ' ';
    proof {
        if hit {
            assert(rest.subrange(0, 7) =~= scheme());
        } else {
            if rest.subrange(0, 7) == scheme() {
                assert(rest.subrange(0, 7)[0] == 'B');
                assert(rest.subrange(0, 7)[1] == 'e');
                assert(rest.subrange(0, 7)[2] == 'a');
                assert(rest.subrange(0, 7)[3] == 'r');
                assert(rest.subrange(0, 7)[4] == 'e');
                assert(rest.subrange(0, 7)[5] == 'r');
                assert(rest.subrange(0, 7)[6] == ' ');
            }
        }
    }
    hit
}

/// The token that a credential header presents, if any.
pub fn read_bearer(header: &str) -> (r: Option<String>)
    ensures
        crate::text::opt_text(r) == bearer_token(header@),
{
    let len = header.unicode_len();
    proof {
        assert(header@.subrange(0, len as int) =~= header@);
    }
    if !scheme_at(header, 0, len) {
        return None;
    }
    let mut start: usize = 0;
    while scheme_at(header, start, len)
        invariant
            len == header@.len(),
            start <= len,
            without_scheme(header@) == without_scheme(header@.subrange(start as int, len as int)),
        decreases len - start,
    {
        proof {
            let rest = header@.subrange(start as int, len as int);
            assert(rest.subrange(7, rest.len() as int) =~= header@.subrange(
                start + 7,
                len as int,
            ));
        }
        start += 7;
    }
    let ghost body = header@.subrange(start as int, len as int);
    assert(without_scheme(header@) == body);
    while start < len && is_space_char(header.get_char(start))
        invariant
            len == header@.len(),
            start <= len,
            trim_start(body) == trim_start(header@.subrange(start as int, len as int)),
        decreases len - start,
    {
        proof {
            let rest = header@.subrange(start as int, len as int);
            assert(rest.subrange(1, rest.len() as int) =~= header@.subrange(
                start + 1,
                len as int,
            ));
        }
        start += 1;
    }
    let ghost trimmed = header@.subrange(start as int, len as int);
    assert(trim_start(body) == trimmed);
    let mut end: usize = len;
    while end > start && is_space_char(header.get_char(end - 1))
        invariant
            len == header@.len(),
            start <= end <= len,
            trim_end(trimmed) == trim_end(header@.subrange(start as int, end as int)),
        decreases end - start,
    {
        proof {
            let rest = header@.subrange(start as int, end as int);
            assert(rest.subrange(0, rest.len() - 1) =~= header@.subrange(
                start as int,
                end - 1,
            ));
        }
        end -= 1;
    }
    assert(trim_end(trimmed) == header@.subrange(start as int, end as int));
    if start == end {
        None
    } else {
        Some(header.substring_char(start, end).to_owned())
    }
}

/// The guard in front of the protected operations. It holds the signing
/// context that its tokens were issued under.
pub struct AuthMiddleware {
    context: SigningContext,
}

impl AuthMiddleware {
    /// The secret of the guard's signing context.
    pub closed spec fn secret(&self) -> Seq<u8> {
        self.context.secret()
    }

    /// A guard for tokens signed with this secret.
    pub fn new(secret_bytes: Vec<u8>) -> (guard: AuthMiddleware)
        ensures
            guard.secret() == secret_bytes@,
    {
        AuthMiddleware { context: SigningContext::new(secret_bytes) }
    }

    /// Decides on a request at a given time, by its credential header.
    pub fn authorize_at(&self, header: Option<&str>, now: i64) -> (r: Result<AuthClaims, AuthError>)
        ensures
            viewed(r) == admission_spec(header_text(header), self.secret(), now),
    {
        let text = match header {
            Some(h) => h,
            None => {
                return Err(AuthError::MissingCredential);
            },
        };
        let token = match read_bearer(text) {
            Some(t) => t,
            None => {
                return Err(AuthError::MissingCredential);
            },
        };
        match self.context.verify_at(token.as_str(), now) {
            Ok(claims) => Ok(AuthClaims(claims)),
            Err(e) => Err(e),
        }
    }

    /// Decides on a request at the current time, by its credential
    /// header. A request without a bearer credential is rejected whatever
    /// the time.
    pub fn authorize(&self, header: Option<&str>) -> (r: Result<AuthClaims, AuthError>)
        ensures
            exists|now: i64|
                viewed(r) == #[trigger] admission_spec(header_text(header), self.secret(), now),
    {
        let now = unix_now();
        self.authorize_at(header, now)
    }
}

} // verus!
