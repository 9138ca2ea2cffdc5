use chrono::Duration;
use kragdb::pass::access::{AccessAttempt, AccessMethod, Pass};
use kragdb::pass::session::CountParseError;
use kragdb::pass::session::SessionPass;
use kragdb::pass::time::TimePass;
use kragdb::pass::UserPass;
use kragdb::timestamp::Timestamp;

#[test]
fn pass() {
    let now = chrono::Utc::now();
    let mut mem = UserPass {
        id: 0,
        user_id: 0,
        time_pass: TimePass {
            expiry: Timestamp {
                secs: now.timestamp() + 86400,
                nanos: now.timestamp_subsec_nanos(),
            },
        },
        session_pass: SessionPass::default(),
    };

    mem.session_pass.sessions_left = 1;

    assert!(mem.use_key().is_success_and(|method| method == &AccessMethod::TimePass));
    assert!(mem.session_pass.sessions_left == 1);
    mem.time_pass = TimePass::default();

    assert!(mem.use_key().is_success_and(|method| method == &AccessMethod::SessionPassSession));
    assert!(mem.session_pass.sessions_left == 0);
    assert!(mem.use_key().is_success_and(|method| method == &AccessMethod::SessionPassGrace));
    assert!(mem.session_pass.sessions_left == 0);
    mem.session_pass = SessionPass::default();

    assert!(mem.use_key() == AccessAttempt::Failure);
}

#[test]
fn session_pass() {
    let mut pass = SessionPass {
        sessions_left: 3,
        ..Default::default()
    };

    assert!(pass
        .use_key()
        .is_success_and(|method| method == &AccessMethod::SessionPassSession));
    assert!(pass.sessions_left == 2);

    assert!(pass
        .use_key()
        .is_success_and(|method| method == &AccessMethod::SessionPassGrace));
    assert!(pass.sessions_left == 2);

    let last = chrono::DateTime::from_timestamp(pass.last_time_used.secs, pass.last_time_used.nanos)
        .unwrap();
    assert!(chrono::Local::now().signed_duration_since(last) < Duration::seconds(1));

    let mut pass = SessionPass::default();
    let inital_last_use = pass.last_time_used;

    assert!(pass.use_key() == AccessAttempt::Failure);
    assert!(pass.sessions_left == 0);
    assert!(pass.use_key() == AccessAttempt::Failure);
    assert!(pass.sessions_left == 0);

    assert!(pass.last_time_used == inital_last_use);
}

#[test]
fn time_pass_valid_at_instant() {
    let mut tp = TimePass {
        expiry: Timestamp { secs: 1000, nanos: 0 },
    };
    let r = tp.use_key_at(Timestamp { secs: 999, nanos: 999_999_999 });
    assert!(r == AccessAttempt::Successful(AccessMethod::TimePass));
    assert!(tp.expiry == Timestamp { secs: 1000, nanos: 0 });
}

#[test]
fn time_pass_expired_at_instant() {
    let mut tp = TimePass {
        expiry: Timestamp { secs: 1000, nanos: 0 },
    };
    assert!(tp.use_key_at(Timestamp { secs: 1000, nanos: 0 }) == AccessAttempt::Failure);
    assert!(tp.use_key_at(Timestamp { secs: 2000, nanos: 0 }) == AccessAttempt::Failure);
    assert!(tp.expiry == Timestamp { secs: 1000, nanos: 0 });
}

#[test]
fn default_session_pass_fails_twice_at_instant() {
    let mut sp = SessionPass::default();
    let now = Timestamp {
        secs: 1_700_000_000,
        nanos: 0,
    };
    assert!(sp.use_key_at(now) == AccessAttempt::Failure);
    assert!(sp.sessions_left == 0);
    assert!(sp.last_time_used == Timestamp { secs: 0, nanos: 0 });
    assert!(sp.use_key_at(now) == AccessAttempt::Failure);
    assert!(sp.sessions_left == 0);
    assert!(sp.last_time_used == Timestamp { secs: 0, nanos: 0 });
}

#[test]
fn session_then_immediate_grace_at_instant() {
    let mut sp = SessionPass {
        sessions_left: 3,
        ..Default::default()
    };
    let now = Timestamp {
        secs: 1_700_000_000,
        nanos: 500,
    };
    let r1 = sp.use_key_at(now);
    assert!(r1 == AccessAttempt::Successful(AccessMethod::SessionPassSession));
    assert!(sp.sessions_left == 2);
    assert!(sp.last_time_used == now);

    let r2 = sp.use_key_at(now);
    assert!(r2 == AccessAttempt::Successful(AccessMethod::SessionPassGrace));
    assert!(sp.sessions_left == 2);
    assert!(sp.last_time_used == now);
}

#[test]
fn user_pass_time_precedence_at_instant() {
    let now = Timestamp {
        secs: 1_700_000_000,
        nanos: 0,
    };
    let mut mem = UserPass {
        id: 1,
        user_id: 2,
        time_pass: TimePass {
            expiry: Timestamp {
                secs: 1_700_000_001,
                nanos: 0,
            },
        },
        session_pass: SessionPass {
            sessions_left: 1,
            ..Default::default()
        },
    };
    let r = mem.use_key_at(now);
    assert!(r == AccessAttempt::Successful(AccessMethod::TimePass));
    assert!(mem.session_pass.sessions_left == 1);
    assert!(mem.session_pass.last_time_used == Timestamp { secs: 0, nanos: 0 });
}

// Sign-in at 19:59:59 local (UTC+2): free entry ends at the next local
// midnight, the instant 79200 seconds past the epoch.
#[test]
fn grace_window_early_sign_in_boundary() {
    let early = Timestamp {
        secs: 64799,
        nanos: 0,
    };
    let mut sp = SessionPass {
        sessions_left: 0,
        last_time_used: early,
    };
    let r = sp.use_key_at(Timestamp { secs: 79199, nanos: 0 });
    assert!(r == AccessAttempt::Successful(AccessMethod::SessionPassGrace));
    assert!(sp.use_key_at(Timestamp { secs: 79200, nanos: 0 }) == AccessAttempt::Failure);
    assert!(sp.last_time_used == early);
}

// Sign-in at 20:00:00 local (UTC+2): free entry ends at 05:00 the next
// local day, the instant 97200 seconds past the epoch.
#[test]
fn grace_window_late_sign_in_boundary() {
    let late = Timestamp {
        secs: 64800,
        nanos: 0,
    };
    let mut sp = SessionPass {
        sessions_left: 0,
        last_time_used: late,
    };
    let r = sp.use_key_at(Timestamp { secs: 97199, nanos: 0 });
    assert!(r == AccessAttempt::Successful(AccessMethod::SessionPassGrace));
    assert!(sp.use_key_at(Timestamp { secs: 97200, nanos: 0 }) == AccessAttempt::Failure);
}

#[test]
fn failure_never_satisfies_is_success_and() {
    assert!(!AccessAttempt::Failure.is_success_and(|_| true));
    let ok = AccessAttempt::Successful(AccessMethod::TimePass);
    assert!(ok.is_success_and(|m| m == &AccessMethod::TimePass));
    assert!(!ok.is_success_and(|m| m == &AccessMethod::SessionPassGrace));
}

// The window end inherits the subsecond part of the last use, so at the
// closing second the comparison is decided by nanoseconds.
#[test]
fn grace_window_end_keeps_subseconds() {
    let last = Timestamp {
        secs: 64799,
        nanos: 7,
    };
    let mut sp = SessionPass {
        sessions_left: 0,
        last_time_used: last,
    };
    let r = sp.use_key_at(Timestamp { secs: 79200, nanos: 3 });
    assert!(r == AccessAttempt::Successful(AccessMethod::SessionPassGrace));
    assert!(sp.use_key_at(Timestamp { secs: 79200, nanos: 7 }) == AccessAttempt::Failure);
}

#[test]
fn session_count_parses_from_decimal() {
    let session_pass = SessionPass {
        sessions_left: 4,
        last_time_used: Timestamp { secs: 0, nanos: 0 },
    };
    let session_pass_from_str = SessionPass::from_str("4");
    assert!(session_pass_from_str.is_ok_and(|pass| pass == session_pass));

    assert!(SessionPass::from_str("+7").is_ok_and(|pass| pass.sessions_left == 7));
    assert!(SessionPass::from_str("4294967295").is_ok_and(|pass| pass.sessions_left == u32::MAX));
}

#[test]
fn session_count_parse_errors() {
    assert!(SessionPass::from_str("") == Err(CountParseError::Empty));
    assert!(SessionPass::from_str("+") == Err(CountParseError::InvalidDigit));
    assert!(SessionPass::from_str("12a") == Err(CountParseError::InvalidDigit));
    assert!(SessionPass::from_str("-3") == Err(CountParseError::InvalidDigit));
    assert!(SessionPass::from_str("4294967296") == Err(CountParseError::Overflow));
}

#[test]
fn expiry_parses_from_rfc3339() {
    let tp = TimePass::from_str("2012-12-12T12:12:12Z").unwrap();
    assert!(tp.expiry == Timestamp { secs: 1355314332, nanos: 0 });
    let tp = TimePass::from_str("2012-12-12 12:12:12+00:00").unwrap();
    assert!(tp.expiry == Timestamp { secs: 1355314332, nanos: 0 });
    assert!(TimePass::from_str("bruh").is_err());
    assert!(TimePass::from_str("2012-13-40T99:99:99Z").is_err());
}
