//! The administrators' accounts.

use vstd::prelude::*;
use crate::admin::models::AdminUser;
use crate::error::{Entity, RepoError};
use crate::garage::store::{Store, StoreView};
use crate::text::clone_opt;

verus! {

/// A copy of an administrator's account.
pub fn clone_admin(user: &AdminUser) -> (r: AdminUser)
    ensures
        r@ == user@,
{
    AdminUser {
        id: user.id,
        username: user.username.clone(),
        password_hash: clone_opt(&user.password_hash),
        phone: clone_opt(&user.phone),
        display_name: clone_opt(&user.display_name),
        email: clone_opt(&user.email),
        is_active: user.is_active,
    }
}

/// The operations on administrators' accounts.
pub struct AdminRepo;

impl AdminRepo {
    /// Registers an administrator's account.
    pub fn register(store: &mut Store, user: AdminUser)
        requires
            old(store).wf(),
        ensures
            final(store).wf(),
            final(store)@ == (StoreView {
                system_users: old(store)@.system_users.push(user@),
                ..old(store)@
            }),
    {
        let ghost row = user@;
        store.system_users.push(user);
        assert(store@.system_users =~= old(store)@.system_users.push(row));
    }

    /// The first administrator with this login name, or
    /// `NotFound(AdminUser)`.
    pub fn find_by_username(store: &Store, username: &str) -> (r: Result<AdminUser, RepoError>)
        ensures
            match r {
                Ok(user) => exists|i: int|
                    0 <= i < store@.system_users.len() && user@ == store@.system_users[i] && (
                    #[trigger] store@.system_users[i]).username == username@ && forall|j: int|
                        0 <= j < i ==> (#[trigger] store@.system_users[j]).username != username@,
                Err(e) => e == RepoError::NotFound(Entity::AdminUser) && forall|i: int|
                    0 <= i < store@.system_users.len() ==> (
                    #[trigger] store@.system_users[i]).username != username@,
            },
    {
        let name = username.to_owned();
        let mut i: usize = 0;
        while i < store.system_users.len()
            invariant
                i <= store.system_users.len(),
                name@ == username@,
                forall|j: int|
                    0 <= j < i ==> (#[trigger] store@.system_users[j]).username != username@,
            decreases store.system_users.len() - i,
        {
            if store.system_users[i].username == name {
                let user = clone_admin(&store.system_users[i]);
                assert(store@.system_users[i as int].username == username@);
                return Ok(user);
            }
            i += 1;
        }
        Err(RepoError::NotFound(Entity::AdminUser))
    }
}

} // verus!
