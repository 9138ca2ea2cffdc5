pub mod access;
pub mod session;
pub mod time;

use vstd::prelude::*;

use crate::user::{PassId, UserId};
use session::SessionPass;
use time::TimePass;

verus! {

/// The full pass record of one user: a time pass and a session pass tried
/// in that order, keyed by the pass id and the owning user.
#[derive(Clone, Copy, PartialEq, Eq, Structural, Debug)]
pub struct UserPass {
    pub id: PassId,
    pub user_id: UserId,
    pub time_pass: TimePass,
    pub session_pass: SessionPass,
}

impl UserPass {
    pub open spec fn wf(&self) -> bool {
        self.time_pass.wf() && self.session_pass.last_time_used.wf()
    }
}

} // verus!
