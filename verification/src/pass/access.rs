use vstd::prelude::*;

use super::UserPass;
use crate::timestamp::{now_timestamp, Timestamp};

verus! {

/// The credential by which an access attempt succeeded.
#[derive(PartialEq, Eq, Structural, Debug)]
pub enum AccessMethod {
    /// The user has a time pass which expires in the future.
    TimePass,
    /// The user has a session pass which has been used and no grace period.
    SessionPassSession,
    /// The user has an active grace period for their session pass.
    SessionPassGrace,
}

/// The outcome of a single entry check.
#[derive(PartialEq, Eq, Structural, Debug)]
pub enum AccessAttempt {
    Successful(AccessMethod),
    Failure,
}

impl AccessAttempt {
    /// Whether the attempt succeeded with a method that `f` accepts.
    pub fn is_success_and(&self, f: impl FnOnce(&AccessMethod) -> bool) -> (r: bool)
        requires
            forall|m: &AccessMethod| #[trigger] f.requires((m,)),
        ensures
            *self matches AccessAttempt::Successful(m) ==> f.ensures((&m,), r),
            *self is Failure ==> !r,
    {
        match self {
            AccessAttempt::Successful(access_method) => f(access_method),
            AccessAttempt::Failure => false,
        }
    }
}

/// The access-capability contract: one operation that checks the key,
/// reports the outcome, and performs at most the minimal state change that
/// the outcome implies.
pub trait Pass: Sized {
    /// Well-formedness that the key check relies on and preserves.
    spec fn pass_wf(&self) -> bool;

    /// The pure decision: the outcome and the successor state of an access
    /// attempt made at the instant `now`.
    spec fn key_transition(&self, now: Timestamp) -> (AccessAttempt, Self);

    /// Checks the key as of the instant `now` and applies the state change
    /// that the outcome implies.
    fn use_key_at(&mut self, now: Timestamp) -> (r: AccessAttempt)
        requires
            old(self).pass_wf(),
            now.wf(),
        ensures
            (r, *final(self)) == old(self).key_transition(now),
            final(self).pass_wf(),
    ;

    /// Checks the key to see if it is valid and returns the status of the
    /// access attempt, as of the current instant.
    fn use_key(&mut self) -> (r: AccessAttempt)
        requires
            old(self).pass_wf(),
        ensures
            exists|now: Timestamp|
                now.wf() && (r, *final(self)) == #[trigger] old(self).key_transition(now),
            final(self).pass_wf(),
    {
        let now = now_timestamp();
        self.use_key_at(now)
    }
}

impl Pass for UserPass {
    open spec fn pass_wf(&self) -> bool {
        self.wf()
    }

    /// Try the time pass first; only when it fails is the session pass
    /// consulted, so time-based entitlement never costs a session.
    open spec fn key_transition(&self, now: Timestamp) -> (AccessAttempt, UserPass) {
        let t = self.time_pass.key_transition(now);
        if t.0 is Successful {
            (t.0, *self)
        } else {
            let s = self.session_pass.key_transition(now);
            (
                s.0,
                UserPass {
                    id: self.id,
                    user_id: self.user_id,
                    time_pass: self.time_pass,
                    session_pass: s.1,
                },
            )
        }
    }

    fn use_key_at(&mut self, now: Timestamp) -> (r: AccessAttempt) {
        match self.time_pass.use_key_at(now) {
            AccessAttempt::Successful(access_method) => AccessAttempt::Successful(access_method),
            AccessAttempt::Failure => self.session_pass.use_key_at(now),
        }
    }
}

/// Law: an access attempt never touches the identity fields or the time
/// pass of the record, and anything short of a session-consuming success
/// leaves the whole record unchanged.
pub proof fn lemma_user_pass_minimal_mutation(up: UserPass, now: Timestamp)
    ensures
        up.key_transition(now).1.id == up.id,
        up.key_transition(now).1.user_id == up.user_id,
        up.key_transition(now).1.time_pass == up.time_pass,
        up.key_transition(now).0 != AccessAttempt::Successful(AccessMethod::SessionPassSession)
            ==> up.key_transition(now).1 == up,
{
}

/// Law: with a time pass that is valid at `now`, the combined pass grants
/// access by the time pass and the session pass is left untouched.
pub proof fn lemma_user_pass_time_precedence(up: UserPass, now: Timestamp)
    requires
        now.spec_lt(up.time_pass.expiry),
    ensures
        up.key_transition(now) == (AccessAttempt::Successful(AccessMethod::TimePass), up),
{
}

} // verus!
