//! The claims of a session token.

use vstd::prelude::*;

verus! {

/// What a session token says of its holder: who it is, in which role, and
/// until when, in seconds since the Unix epoch.
#[derive(Debug)]
pub struct Claims {
    pub sub: String,
    pub username: String,
    pub role: String,
    pub exp: usize,
}

pub struct ClaimsView {
    pub sub: Seq<char>,
    pub username: Seq<char>,
    pub role: Seq<char>,
    pub exp: usize,
}

impl View for Claims {
    type V = ClaimsView;

    open spec fn view(&self) -> ClaimsView {
        ClaimsView { sub: self.sub@, username: self.username@, role: self.role@, exp: self.exp }
    }
}

/// Claims that the guard has verified. An operation that receives them need
/// not verify the token again.
#[derive(Debug)]
pub struct AuthClaims(pub Claims);

impl View for AuthClaims {
    type V = ClaimsView;

    open spec fn view(&self) -> ClaimsView {
        self.0@
    }
}

} // verus!
