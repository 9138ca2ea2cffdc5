use vstd::prelude::*;

use super::access::{AccessAttempt, AccessMethod, Pass};
use crate::timestamp::{parse_utc, parsed_utc, Timestamp};

verus! {

/// A credential that grants access until a fixed expiry instant.
#[derive(Clone, Copy, PartialEq, Eq, Structural, Debug)]
pub struct TimePass {
    pub expiry: Timestamp,
}

/// Error returned when a string does not parse as an expiry date.
#[derive(Clone, Copy, PartialEq, Eq, Structural, Debug)]
pub struct ExpiryParseError;

impl TimePass {
    pub open spec fn wf(&self) -> bool {
        self.expiry.wf()
    }

    /// Parses a time into an expiry date for the pass, in the relaxed
    /// RFC 3339 form, interpreted in UTC.
    pub fn from_str(s: &str) -> (r: Result<TimePass, ExpiryParseError>)
        ensures
            match r {
                Ok(tp) => {
                    &&& parsed_utc(s@) matches Some(t) && tp.expiry == (Timestamp {
                        secs: t.0,
                        nanos: t.1,
                    })
                    &&& tp.wf()
                },
                Err(_) => parsed_utc(s@) is None,
            },
    {
        match parse_utc(s) {
            Some(t) => Ok(TimePass { expiry: Timestamp { secs: t.0, nanos: t.1 } }),
            None => Err(ExpiryParseError),
        }
    }
}

impl Default for TimePass {
    /// A pass which expired at the Unix epoch, in 1970.
    fn default() -> (r: Self)
        ensures
            r == (TimePass { expiry: Timestamp { secs: 0, nanos: 0 } }),
    {
        TimePass { expiry: Timestamp::epoch() }
    }
}

impl Pass for TimePass {
    open spec fn pass_wf(&self) -> bool {
        self.wf()
    }

    /// A pure time comparison: success while `now` lies strictly before the
    /// expiry, and never any state change.
    open spec fn key_transition(&self, now: Timestamp) -> (AccessAttempt, TimePass) {
        if now.spec_lt(self.expiry) {
            (AccessAttempt::Successful(AccessMethod::TimePass), *self)
        } else {
            (AccessAttempt::Failure, *self)
        }
    }

    fn use_key_at(&mut self, now: Timestamp) -> (r: AccessAttempt) {
        if now.lt(&self.expiry) {
            AccessAttempt::Successful(AccessMethod::TimePass)
        } else {
            AccessAttempt::Failure
        }
    }
}

/// Law: a time pass whose expiry lies strictly after `now` grants access by
/// `AccessMethod::TimePass` and the pass value is unchanged afterward.
pub proof fn lemma_time_pass_valid(tp: TimePass, now: Timestamp)
    requires
        now.spec_lt(tp.expiry),
    ensures
        tp.key_transition(now) == (AccessAttempt::Successful(AccessMethod::TimePass), tp),
{
}

/// Law: a time pass whose expiry is at or before `now` fails, and the pass
/// value is unchanged afterward.
pub proof fn lemma_time_pass_expired(tp: TimePass, now: Timestamp)
    requires
        !now.spec_lt(tp.expiry),
    ensures
        tp.key_transition(now) == (AccessAttempt::Failure, tp),
{
}

} // verus!
