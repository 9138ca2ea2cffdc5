use vstd::prelude::*;

verus! {

/// An opaque one-way password hash in PHC string form. Its raw bytes
/// double as a session-invalidation fingerprint: a changed password
/// changes the fingerprint.
#[derive(Clone, PartialEq, Eq, Debug)]
pub struct PasswordHash {
    data: String,
}

impl View for PasswordHash {
    type V = Seq<char>;

    closed spec fn view(&self) -> Seq<char> {
        self.data@
    }
}

impl PasswordHash {
    /// Takes a plain password and hashes it.
    ///
    /// Relies on password_auth::generate_hash: it salts the hash with
    /// fresh randomness, so nothing is claimed of the result. It panics
    /// only on inputs beyond the hasher's gigabyte-scale length limit,
    /// which the bound on the password's length keeps out.
    #[verifier::external_body]
    pub fn from_raw(password: &str) -> (r: PasswordHash)
        requires
            password@.len() < 0x4000_0000,
    {
        PasswordHash { data: password_auth::generate_hash(password) }
    }

    /// Wraps a hash string that was produced before it was stored,
    /// without hashing again.
    pub fn from_stored(data: String) -> (r: PasswordHash)
        ensures
            r@ == data@,
    {
        PasswordHash { data }
    }

    /// The hash in its PHC string form.
    pub fn as_ref(&self) -> (r: &str)
        ensures
            r@ == self@,
    {
        self.data.as_str()
    }
}

} // verus!
