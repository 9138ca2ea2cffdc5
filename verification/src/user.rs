pub mod password;
pub mod permissions;

use vstd::prelude::*;

use crate::email::EmailAddr;
use password::PasswordHash;
use permissions::Permissions;

verus! {

pub type PhoneNumber = i64;

pub type UserId = i32;

pub type PassId = i64;

/// A member of the facility: identity, contact data, the stored password
/// hash, and the permission set.
#[derive(Clone, PartialEq, Eq)]
pub struct User {
    pub id: UserId,
    pub username: String,
    pub email: EmailAddr,
    pub number: Option<PhoneNumber>,
    pub password: PasswordHash,
    pub permissions: Permissions,
}

impl Default for User {
    /// An anonymous user: id 0, empty username, a placeholder address, no
    /// phone number, the hash of the empty password, and no permissions.
    fn default() -> (r: Self)
        ensures
            r.id == 0,
            r.username@.len() == 0,
            r.email@ == "default@email.com"@,
            r.number is None,
            r.permissions.bits == permissions::NONE,
    {
        proof {
            reveal_strlit("");
        }
        User {
            id: 0,
            username: String::new(),
            email: EmailAddr::from_stored("default@email.com".to_owned()),
            number: None,
            password: PasswordHash::from_raw(""),
            permissions: Permissions { bits: permissions::NONE },
        }
    }
}

} // verus!
