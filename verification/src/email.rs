use vstd::prelude::*;

verus! {

/// Whether the RFC 5321 style syntax check accepts an address string. The
/// outcome depends on the characters alone.
pub uninterp spec fn is_email(s: Seq<char>) -> bool;

/// Relies on fast_chemail::parse_email: a pure scan of the address string
/// that accepts or rejects it.
#[verifier::external_body]
fn check_email(s: &str) -> (r: bool)
    ensures
        r == is_email(s@),
{
    fast_chemail::parse_email(s).is_ok()
}

/// Error returned when a string is not a syntactically valid address.
#[derive(Clone, Copy, PartialEq, Eq, Structural, Debug)]
pub struct EmailParseError;

/// A syntactically validated email address, treated as an opaque scalar.
#[derive(Clone, PartialEq, Eq, Debug)]
pub struct EmailAddr {
    addr: String,
}

impl View for EmailAddr {
    type V = Seq<char>;

    closed spec fn view(&self) -> Seq<char> {
        self.addr@
    }
}

impl EmailAddr {
    /// Parses an address: exactly the strings that the syntax check
    /// accepts become values, held verbatim.
    pub fn from_str(s: &str) -> (r: Result<EmailAddr, EmailParseError>)
        ensures
            match r {
                Ok(e) => is_email(s@) && e@ == s@,
                Err(_) => !is_email(s@),
            },
    {
        if check_email(s) {
            Ok(EmailAddr { addr: s.to_owned() })
        } else {
            Err(EmailParseError)
        }
    }

    /// Wraps an address that was validated before it was stored, without
    /// checking it again.
    pub fn from_stored(addr: String) -> (r: EmailAddr)
        ensures
            r@ == addr@,
    {
        EmailAddr { addr }
    }

    /// The address as a string slice.
    pub fn as_ref(&self) -> (r: &str)
        ensures
            r@ == self@,
    {
        self.addr.as_str()
    }
}

} // verus!
