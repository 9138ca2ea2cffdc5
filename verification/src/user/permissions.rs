use vstd::prelude::*;

verus! {

/// Can create users.
pub const USER_CREATE: u32 = 1 << 0;

/// Can read any user data.
pub const USER_READ: u32 = 1 << 1;

/// Can update any user data.
pub const USER_UPDATE: u32 = 1 << 2;

/// Can delete any users (except root).
pub const USER_DELETE: u32 = 1 << 3;

/// Can create passes for any user.
pub const PASS_CREATE: u32 = 1 << 4;

/// Can read passes for any user.
pub const PASS_READ: u32 = 1 << 5;

/// Can update passes for any user.
pub const PASS_UPDATE: u32 = 1 << 6;

/// Can delete passes for any user.
pub const PASS_DELETE: u32 = 1 << 7;

/// Full control over the user table.
pub const USER_CRUD: u32 = USER_CREATE | USER_READ | USER_UPDATE | USER_DELETE;

/// Full control over the pass table.
pub const PASS_CRUD: u32 = PASS_CREATE | PASS_READ | PASS_UPDATE | PASS_DELETE;

/// An admin can create, read, update and delete both users and passes.
pub const ADMIN: u32 = USER_CRUD | PASS_CRUD;

/// Root can do everything: every bit set.
pub const ROOT: u32 = !0;

/// No permissions at all.
pub const NONE: u32 = 0;

/// Which actions a user of the database can perform, as a set of the
/// named permission bits, serialized as a plain unsigned integer.
#[derive(Clone, Copy, PartialEq, Eq, Structural, Debug, Hash)]
pub struct Permissions {
    pub bits: u32,
}

impl Permissions {
    /// The permission set denoted by an integer. Since `ROOT` sets every
    /// bit, every bit is meaningful and none is dropped.
    pub fn from_bits_truncate(bits: u32) -> (r: Permissions)
        ensures
            r.bits == bits,
    {
        Permissions { bits }
    }

    /// The underlying bits.
    pub fn bits(&self) -> (r: u32)
        ensures
            r == self.bits,
    {
        self.bits
    }

    /// Whether every permission in `other` is also in `self`.
    pub fn contains(&self, other: Permissions) -> (r: bool)
        ensures
            r == (self.bits & other.bits == other.bits),
    {
        self.bits & other.bits == other.bits
    }

    /// The permissions in either set.
    pub fn union(&self, other: Permissions) -> (r: Permissions)
        ensures
            r.bits == self.bits | other.bits,
    {
        Permissions { bits: self.bits | other.bits }
    }

    /// The permissions in both sets.
    pub fn intersection(&self, other: Permissions) -> (r: Permissions)
        ensures
            r.bits == self.bits & other.bits,
    {
        Permissions { bits: self.bits & other.bits }
    }
}

} // verus!
