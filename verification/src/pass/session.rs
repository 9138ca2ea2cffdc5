use vstd::arithmetic::div_mod::lemma_mod_multiples_vanish;
use vstd::prelude::*;
use vstd::string::StringSliceAdditionalSpecFns;

use super::access::{AccessAttempt, AccessMethod, Pass};
use crate::timestamp::Timestamp;

verus! {

/// The fixed local offset (UTC+2) in which the grace-window rule reads the
/// clock. It is a deployment constant, not derived from any stored locale.
pub const LOCAL_OFFSET_SECS: i64 = 7200;

pub const SECONDS_PER_DAY: i64 = 86400;

/// Local hour from which a sign-in keeps free entry into the early hours of
/// the next day.
pub const LATE_SIGN_IN_HOUR: i64 = 20;

/// Five hours: a sign-in at or after 20:00 local time keeps free entry
/// until 05:00 the next day.
pub const LATE_EXTRA_SECS: i64 = 18000;

/// A multiple of `SECONDS_PER_DAY` large enough to make any in-range
/// seconds value non-negative before taking a remainder.
const DAY_SHIFT: i64 = 86400 * 115_740_741;

/// Seconds from local midnight (UTC+2) at the instant `secs` seconds past
/// the Unix epoch.
pub open spec fn local_seconds_from_midnight(secs: int) -> int {
    (secs + LOCAL_OFFSET_SECS) % (SECONDS_PER_DAY as int)
}

/// When the free-reentry window opened at `last` closes, in whole seconds:
/// the next local midnight after `last`, or five hours past that midnight
/// when the sign-in happened at or after 20:00 local time. The window end
/// inherits the subsecond part of `last`.
pub open spec fn grace_window_end_secs(last: Timestamp) -> int {
    let sfm = local_seconds_from_midnight(last.secs as int);
    let next_midnight = last.secs + (SECONDS_PER_DAY - sfm);
    if sfm / 3600 < LATE_SIGN_IN_HOUR {
        next_midnight
    } else {
        next_midnight + LATE_EXTRA_SECS
    }
}

/// Whether `now` still falls inside the free window opened at `last`.
pub open spec fn in_grace(last: Timestamp, now: Timestamp) -> bool {
    ||| now.secs < grace_window_end_secs(last)
    ||| now.secs == grace_window_end_secs(last) && now.nanos < last.nanos
}

/// Error returned when a string does not parse as a session count.
#[derive(Clone, Copy, PartialEq, Eq, Structural, Debug)]
pub enum CountParseError {
    /// The string was empty.
    Empty,
    /// A character other than a decimal digit appeared, or nothing
    /// followed the sign.
    InvalidDigit,
    /// The digits denote a value above `u32::MAX`.
    Overflow,
}

pub open spec fn is_dec_digit(b: u8) -> bool {
    48 <= b <= 57
}

/// The digit part of a decimal numeral: everything after an optional
/// leading `+` sign.
pub open spec fn numeral_digits(s: Seq<u8>) -> Seq<u8> {
    if s.len() > 0 && s[0] == 43 {
        s.skip(1)
    } else {
        s
    }
}

pub open spec fn all_dec_digits(s: Seq<u8>) -> bool {
    forall|i: int| 0 <= i < s.len() ==> is_dec_digit(#[trigger] s[i])
}

/// The value of a sequence of decimal digit bytes, most significant first.
pub open spec fn dec_value(s: Seq<u8>) -> int
    decreases s.len(),
{
    if s.len() == 0 {
        0
    } else {
        dec_value(s.drop_last()) * 10 + (s.last() - 48)
    }
}

proof fn lemma_dec_value_nonneg(s: Seq<u8>)
    requires
        all_dec_digits(s),
    ensures
        dec_value(s) >= 0,
    decreases s.len(),
{
    if s.len() > 0 {
        assert(all_dec_digits(s.drop_last()));
        lemma_dec_value_nonneg(s.drop_last());
    }
}

/// A longer prefix of a digit string never denotes a smaller value.
proof fn lemma_dec_value_prefix_le(s: Seq<u8>, i: int)
    requires
        all_dec_digits(s),
        0 <= i <= s.len(),
    ensures
        dec_value(s.subrange(0, i)) <= dec_value(s),
    decreases s.len() - i,
{
    if i == s.len() {
        assert(s.subrange(0, i) =~= s);
    } else {
        assert(s.subrange(0, i + 1).drop_last() =~= s.subrange(0, i));
        assert(all_dec_digits(s.subrange(0, i)));
        lemma_dec_value_nonneg(s.subrange(0, i));
        lemma_dec_value_prefix_le(s, i + 1);
    }
}

/// A credential backed by a countable number of entries plus a free
/// re-entry window after the last consumed entry.
#[derive(Clone, Copy, PartialEq, Eq, Structural, Debug)]
pub struct SessionPass {
    pub last_time_used: Timestamp,
    pub sessions_left: u32,
}

impl Default for SessionPass {
    /// A pass with 0 sessions and the `last_time_used` at the Unix epoch.
    fn default() -> (r: Self)
        ensures
            r == (SessionPass { sessions_left: 0, last_time_used: Timestamp { secs: 0, nanos: 0 } }),
    {
        SessionPass { sessions_left: 0, last_time_used: Timestamp::epoch() }
    }
}

impl SessionPass {
    /// Parses the number of sessions from a decimal numeral (an optional
    /// `+` sign, then digits); the last use starts out at the Unix epoch.
    pub fn from_str(s: &str) -> (r: Result<SessionPass, CountParseError>)
        ensures
            match r {
                Ok(sp) => {
                    let ds = numeral_digits(s.spec_bytes());
                    &&& ds.len() > 0
                    &&& all_dec_digits(ds)
                    &&& dec_value(ds) <= u32::MAX
                    &&& sp.sessions_left == dec_value(ds)
                    &&& sp.last_time_used == (Timestamp { secs: 0, nanos: 0 })
                },
                Err(CountParseError::Empty) => s.spec_bytes().len() == 0,
                Err(CountParseError::InvalidDigit) => {
                    let ds = numeral_digits(s.spec_bytes());
                    s.spec_bytes().len() > 0 && (ds.len() == 0 || !all_dec_digits(ds))
                },
                Err(CountParseError::Overflow) => {
                    let ds = numeral_digits(s.spec_bytes());
                    ds.len() > 0 && all_dec_digits(ds) && dec_value(ds) > u32::MAX
                },
            },
    {
        let bytes = s.as_bytes();
        let n = bytes.len();
        if n == 0 {
            return Err(CountParseError::Empty);
        }
        let start: usize = if bytes[0] == 43 {
            1
        } else {
            0
        };
        let ghost ds = numeral_digits(s.spec_bytes());
        proof {
            assert(ds =~= bytes@.subrange(start as int, n as int));
        }
        if n == start {
            return Err(CountParseError::InvalidDigit);
        }
        let mut i: usize = start;
        while i < n
            invariant
                start <= i <= n,
                n == bytes@.len(),
                bytes@ == s.spec_bytes(),
                ds == numeral_digits(s.spec_bytes()),
                ds == bytes@.subrange(start as int, n as int),
                forall|j: int| 0 <= j < i - start ==> is_dec_digit(#[trigger] ds[j]),
            decreases n - i,
        {
            if bytes[i] < 48 || bytes[i] > 57 {
                assert(!is_dec_digit(ds[i - start]));
                return Err(CountParseError::InvalidDigit);
            }
            i = i + 1;
        }
        assert(all_dec_digits(ds));
        let mut val: u64 = 0;
        let mut k: usize = start;
        while k < n
            invariant
                start <= k <= n,
                n == bytes@.len(),
                bytes@ == s.spec_bytes(),
                ds == numeral_digits(s.spec_bytes()),
                ds == bytes@.subrange(start as int, n as int),
                all_dec_digits(ds),
                val == dec_value(ds.subrange(0, k - start)),
                val <= u32::MAX,
            decreases n - k,
        {
            proof {
                assert(is_dec_digit(ds[k - start]));
            }
            let d: u8 = bytes[k] - 48;
            val = val * 10 + (d as u64);
            proof {
                assert(ds.subrange(0, k - start + 1).drop_last() =~= ds.subrange(0, k - start));
                assert(ds.subrange(0, k - start + 1).last() == ds[k - start]);
                assert(val == dec_value(ds.subrange(0, k - start + 1)));
            }
            if val > 0xffff_ffff {
                proof {
                    lemma_dec_value_prefix_le(ds, k - start + 1);
                    assert(dec_value(ds.subrange(0, k - start + 1)) <= dec_value(ds));
                }
                return Err(CountParseError::Overflow);
            }
            k = k + 1;
        }
        proof {
            assert(ds.subrange(0, n - start) =~= ds);
        }
        Ok(SessionPass { sessions_left: val as u32, last_time_used: Timestamp::epoch() })
    }
}

/// End of the free window opened at `last`, in whole seconds.
fn grace_window_end(last: &Timestamp) -> (r: i64)
    requires
        last.wf(),
    ensures
        r == grace_window_end_secs(*last),
{
    let shifted: i64 = last.secs + LOCAL_OFFSET_SECS + DAY_SHIFT;
    let sfm: i64 = shifted % SECONDS_PER_DAY;
    proof {
        lemma_mod_multiples_vanish(
            115_740_741,
            last.secs + LOCAL_OFFSET_SECS,
            SECONDS_PER_DAY as int,
        );
    }
    let next_midnight: i64 = last.secs + (SECONDS_PER_DAY - sfm);
    if sfm / 3600 < LATE_SIGN_IN_HOUR {
        next_midnight
    } else {
        next_midnight + LATE_EXTRA_SECS
    }
}

impl Pass for SessionPass {
    open spec fn pass_wf(&self) -> bool {
        self.last_time_used.wf()
    }

    /// The grace check comes first, unconditionally: inside the free window
    /// entry is free and nothing changes, even when no sessions are left.
    /// Outside it, a remaining session is consumed and `now` is stamped;
    /// with none left the attempt fails with no state change.
    open spec fn key_transition(&self, now: Timestamp) -> (AccessAttempt, SessionPass) {
        if in_grace(self.last_time_used, now) {
            (AccessAttempt::Successful(AccessMethod::SessionPassGrace), *self)
        } else if self.sessions_left > 0 {
            (
                AccessAttempt::Successful(AccessMethod::SessionPassSession),
                SessionPass {
                    sessions_left: (self.sessions_left - 1) as u32,
                    last_time_used: now,
                },
            )
        } else {
            (AccessAttempt::Failure, *self)
        }
    }

    /// If a user consumes a session, the time until which entering again is
    /// free is given by the following table of local (UTC+2) sign-in times:
    ///
    /// sign-in 00:00 - 19:59: free entry until 23:59 the same day;
    /// sign-in 20:00 - 23:59: free entry until 05:00 the next day.
    fn use_key_at(&mut self, now: Timestamp) -> (r: AccessAttempt) {
        let window_end = grace_window_end(&self.last_time_used);
        if now.secs < window_end || (now.secs == window_end && now.nanos
            < self.last_time_used.nanos) {
            AccessAttempt::Successful(AccessMethod::SessionPassGrace)
        } else if self.sessions_left > 0 {
            self.sessions_left = self.sessions_left - 1;
            self.last_time_used = now;
            AccessAttempt::Successful(AccessMethod::SessionPassSession)
        } else {
            AccessAttempt::Failure
        }
    }
}

/// Law: the instant of the last consumed session always lies inside its own
/// grace window, so an attempt made at the very moment of (or just after)
/// a consumed session re-enters free of charge.
pub proof fn lemma_grace_holds_at_last_use(last: Timestamp)
    ensures
        in_grace(last, last),
{
}

/// Law: the last-use instant never moves backwards across a
/// session-consuming attempt: a session is consumed only once the old
/// grace window has elapsed, and that window closes strictly after the
/// old instant.
pub proof fn lemma_last_use_monotone(sp: SessionPass, now: Timestamp)
    requires
        sp.key_transition(now).0 == AccessAttempt::Successful(AccessMethod::SessionPassSession),
    ensures
        sp.last_time_used.spec_lt(sp.key_transition(now).1.last_time_used),
{
}

/// Law: only a session-consuming success mutates the pass; a failure and
/// a grace-period success leave it exactly as it was.
pub proof fn lemma_mutation_only_on_session_use(sp: SessionPass, now: Timestamp)
    ensures
        sp.key_transition(now).0 != AccessAttempt::Successful(AccessMethod::SessionPassSession)
            ==> sp.key_transition(now).1 == sp,
{
}

/// Law: a default session pass (no sessions, epoch timestamp) fails, twice
/// in a row, with no state change, at any two instants past the grace
/// window of the epoch.
pub proof fn lemma_default_session_pass_fails_twice(now1: Timestamp, now2: Timestamp)
    requires
        !in_grace(Timestamp { secs: 0, nanos: 0 }, now1),
        !in_grace(Timestamp { secs: 0, nanos: 0 }, now2),
    ensures
        ({
            let start = SessionPass {
                sessions_left: 0,
                last_time_used: Timestamp { secs: 0, nanos: 0 },
            };
            &&& start.key_transition(now1) == (AccessAttempt::Failure, start)
            &&& start.key_transition(now2) == (AccessAttempt::Failure, start)
        }),
{
}

/// Law: the grace window of the epoch ends 79200 seconds in, at midnight
/// of January 1, 1970 in UTC+2.
pub proof fn lemma_epoch_grace_window_end()
    ensures
        grace_window_end_secs(Timestamp { secs: 0, nanos: 0 }) == 79200,
{
}

/// Law: outside the free window and with sessions remaining, an attempt
/// consumes exactly one session and stamps its instant; a second attempt
/// inside the window so opened re-enters by grace and changes nothing, so
/// the count stays where the first attempt left it.
pub proof fn lemma_session_then_grace(sp: SessionPass, now1: Timestamp, now2: Timestamp)
    requires
        !in_grace(sp.last_time_used, now1),
        sp.sessions_left > 0,
        in_grace(now1, now2),
    ensures
        ({
            let used = SessionPass {
                sessions_left: (sp.sessions_left - 1) as u32,
                last_time_used: now1,
            };
            &&& sp.key_transition(now1) == (
                AccessAttempt::Successful(AccessMethod::SessionPassSession),
                used,
            )
            &&& used.key_transition(now2) == (
                AccessAttempt::Successful(AccessMethod::SessionPassGrace),
                used,
            )
        }),
{
}

} // verus!
