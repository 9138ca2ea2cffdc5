use kragdb::codec::{
    decode_session_pass, decode_time_pass, encode_session_pass, encode_time_pass, DecodeError,
};
use kragdb::pass::session::SessionPass;
use kragdb::pass::time::TimePass;
use kragdb::timestamp::Timestamp;

#[test]
fn time_pass_layout_is_fixed() {
    let tp = TimePass {
        expiry: Timestamp { secs: 1, nanos: 2 },
    };
    let bytes = encode_time_pass(&tp);
    assert_eq!(bytes, vec![1, 0, 0, 0, 0, 0, 0, 0, 2, 0, 0, 0]);
}

#[test]
fn session_pass_layout_is_fixed() {
    let sp = SessionPass {
        last_time_used: Timestamp { secs: 256, nanos: 1 },
        sessions_left: 3,
    };
    let bytes = encode_session_pass(&sp);
    assert_eq!(
        bytes,
        vec![0, 1, 0, 0, 0, 0, 0, 0, 1, 0, 0, 0, 3, 0, 0, 0]
    );
}

#[test]
fn time_pass_round_trips() {
    let values = [
        TimePass::default(),
        TimePass {
            expiry: Timestamp { secs: 0, nanos: 0 },
        },
        TimePass {
            expiry: Timestamp {
                secs: 8_000_000_000_000,
                nanos: 999_999_999,
            },
        },
        TimePass {
            expiry: Timestamp {
                secs: -8_000_000_000_000,
                nanos: 1,
            },
        },
        TimePass {
            expiry: Timestamp {
                secs: 1_700_000_000,
                nanos: 123_456_789,
            },
        },
    ];
    for tp in values {
        let bytes = encode_time_pass(&tp);
        assert_eq!(bytes.len(), 12);
        assert_eq!(decode_time_pass(&bytes), Ok(tp));
    }
}

#[test]
fn session_pass_round_trips() {
    let values = [
        SessionPass::default(),
        SessionPass {
            last_time_used: Timestamp {
                secs: 1_700_000_000,
                nanos: 1_999_999_999,
            },
            sessions_left: u32::MAX,
        },
        SessionPass {
            last_time_used: Timestamp {
                secs: -1,
                nanos: 0,
            },
            sessions_left: 7,
        },
    ];
    for sp in values {
        let bytes = encode_session_pass(&sp);
        assert_eq!(bytes.len(), 16);
        assert_eq!(decode_session_pass(&bytes), Ok(sp));
    }
}

#[test]
fn decode_rejects_wrong_length() {
    assert_eq!(decode_time_pass(&[]), Err(DecodeError::WrongLength));
    assert_eq!(decode_time_pass(&[0; 11]), Err(DecodeError::WrongLength));
    assert_eq!(decode_time_pass(&[0; 13]), Err(DecodeError::WrongLength));
    assert_eq!(decode_time_pass(&[0; 16]), Err(DecodeError::WrongLength));
    assert_eq!(decode_session_pass(&[0; 12]), Err(DecodeError::WrongLength));
    assert_eq!(decode_session_pass(&[0; 17]), Err(DecodeError::WrongLength));
}

#[test]
fn decode_rejects_invalid_content() {
    // Seconds far outside the representable date range.
    let all_ones = [0xff; 12];
    assert_eq!(decode_time_pass(&all_ones[..11]), Err(DecodeError::WrongLength));
    let mut big_secs = [0u8; 12];
    big_secs[7] = 0x7f;
    assert_eq!(decode_time_pass(&big_secs), Err(DecodeError::InvalidValue));
    // Nanoseconds at 2_000_000_000, just past the leap-second ceiling.
    let mut big_nanos = [0u8; 16];
    big_nanos[8..12].copy_from_slice(&2_000_000_000u32.to_le_bytes());
    assert_eq!(decode_session_pass(&big_nanos), Err(DecodeError::InvalidValue));
}
