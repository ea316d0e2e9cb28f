//! Request and response shapes of the admin surface.

use vstd::prelude::*;
use crate::text::opt_text;

verus! {

/// An account of an administrator of the system.
#[derive(Debug)]
pub struct AdminUser {
    pub id: u128,
    pub username: String,
    pub password_hash: Option<String>,
    pub phone: Option<String>,
    pub display_name: Option<String>,
    pub email: Option<String>,
    pub is_active: bool,
}

pub struct AdminUserView {
    pub id: u128,
    pub username: Seq<char>,
    pub password_hash: Option<Seq<char>>,
    pub phone: Option<Seq<char>>,
    pub display_name: Option<Seq<char>>,
    pub email: Option<Seq<char>>,
    pub is_active: bool,
}

impl View for AdminUser {
    type V = AdminUserView;

    open spec fn view(&self) -> AdminUserView {
        AdminUserView {
            id: self.id,
            username: self.username@,
            password_hash: opt_text(self.password_hash),
            phone: opt_text(self.phone),
            display_name: opt_text(self.display_name),
            email: opt_text(self.email),
            is_active: self.is_active,
        }
    }
}

#[derive(Debug)]
pub struct AdminLoginRequest {
    pub username: String,
    pub password: String,
}

#[derive(Debug)]
pub struct AdminLoginResponse {
    pub token: String,
    pub id: u128,
    pub username: String,
    pub display_name: Option<String>,
}

} // verus!
