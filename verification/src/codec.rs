use vstd::bytes::{
    lemma_auto_spec_u32_to_from_le_bytes, lemma_auto_spec_u64_to_from_le_bytes,
    spec_u32_from_le_bytes, spec_u32_to_le_bytes, spec_u64_from_le_bytes, spec_u64_to_le_bytes,
    u32_from_le_bytes, u32_to_le_bytes, u64_from_le_bytes, u64_to_le_bytes,
};
use vstd::prelude::*;
use vstd::slice::slice_subrange;

use crate::pass::access::Pass;
use crate::pass::session::SessionPass;
use crate::pass::time::TimePass;
use crate::pass::UserPass;
use crate::timestamp::{Timestamp, NANOS_LIMIT, SECS_LIMIT};

verus! {

/// Fixed width of an encoded time pass: 8 bytes of seconds, 4 of
/// nanoseconds.
pub const TIME_PASS_WIDTH: usize = 12;

/// Fixed width of an encoded session pass: an instant as above, then 4
/// bytes of session count.
pub const SESSION_PASS_WIDTH: usize = 16;

/// A stored pass blob that cannot be decoded: storage corruption or
/// schema drift, never silently defaulted.
#[derive(Clone, Copy, PartialEq, Eq, Structural, Debug)]
pub enum DecodeError {
    /// The blob's length differs from the type's fixed width.
    WrongLength,
    /// The blob's bytes denote no well-formed instant.
    InvalidValue,
}

/// An instant as 12 bytes: the seconds in two's complement, then the
/// nanoseconds, both little endian.
pub open spec fn spec_encode_timestamp(ts: Timestamp) -> Seq<u8> {
    spec_u64_to_le_bytes(ts.secs as u64) + spec_u32_to_le_bytes(ts.nanos)
}

/// The instant that a 12-byte block denotes.
pub open spec fn spec_decode_timestamp(b: Seq<u8>) -> Timestamp
    recommends
        b.len() == 12,
{
    Timestamp {
        secs: spec_u64_from_le_bytes(b.subrange(0, 8)) as i64,
        nanos: spec_u32_from_le_bytes(b.subrange(8, 12)),
    }
}

pub open spec fn spec_encode_time_pass(tp: TimePass) -> Seq<u8> {
    spec_encode_timestamp(tp.expiry)
}

pub open spec fn spec_decode_time_pass(b: Seq<u8>) -> Result<TimePass, DecodeError> {
    if b.len() != TIME_PASS_WIDTH {
        Err(DecodeError::WrongLength)
    } else {
        let ts = spec_decode_timestamp(b);
        if ts.wf() {
            Ok(TimePass { expiry: ts })
        } else {
            Err(DecodeError::InvalidValue)
        }
    }
}

pub open spec fn spec_encode_session_pass(sp: SessionPass) -> Seq<u8> {
    spec_encode_timestamp(sp.last_time_used) + spec_u32_to_le_bytes(sp.sessions_left)
}

pub open spec fn spec_decode_session_pass(b: Seq<u8>) -> Result<SessionPass, DecodeError> {
    if b.len() != SESSION_PASS_WIDTH {
        Err(DecodeError::WrongLength)
    } else {
        let ts = spec_decode_timestamp(b.subrange(0, 12));
        if ts.wf() {
            Ok(
                SessionPass {
                    last_time_used: ts,
                    sessions_left: spec_u32_from_le_bytes(b.subrange(12, 16)),
                },
            )
        } else {
            Err(DecodeError::InvalidValue)
        }
    }
}

/// The 12 low-endian bytes of an instant.
fn encode_timestamp(ts: &Timestamp) -> (r: Vec<u8>)
    ensures
        r@ == spec_encode_timestamp(*ts),
        r@.len() == 12,
{
    proof {
        lemma_auto_spec_u64_to_from_le_bytes();
        lemma_auto_spec_u32_to_from_le_bytes();
    }
    let mut out = u64_to_le_bytes(#[verifier::truncate] (ts.secs as u64));
    let mut nanos = u32_to_le_bytes(ts.nanos);
    out.append(&mut nanos);
    out
}

/// Encodes a time pass into its canonical 12-byte representation.
pub fn encode_time_pass(tp: &TimePass) -> (r: Vec<u8>)
    ensures
        r@ == spec_encode_time_pass(*tp),
        r@.len() == TIME_PASS_WIDTH,
{
    encode_timestamp(&tp.expiry)
}

/// Decodes a time pass, rejecting any blob of the wrong length and any
/// content outside the well-formed instant range.
pub fn decode_time_pass(b: &[u8]) -> (r: Result<TimePass, DecodeError>)
    ensures
        r == spec_decode_time_pass(b@),
{
    if b.len() != TIME_PASS_WIDTH {
        return Err(DecodeError::WrongLength);
    }
    let secs: i64 = #[verifier::truncate] (u64_from_le_bytes(slice_subrange(b, 0, 8)) as i64);
    let nanos: u32 = u32_from_le_bytes(slice_subrange(b, 8, 12));
    proof {
        assert(b@.subrange(0, 12) =~= b@);
    }
    if -SECS_LIMIT < secs && secs < SECS_LIMIT && nanos < NANOS_LIMIT {
        Ok(TimePass { expiry: Timestamp { secs, nanos } })
    } else {
        Err(DecodeError::InvalidValue)
    }
}

/// Encodes a session pass into its canonical 16-byte representation.
pub fn encode_session_pass(sp: &SessionPass) -> (r: Vec<u8>)
    ensures
        r@ == spec_encode_session_pass(*sp),
        r@.len() == SESSION_PASS_WIDTH,
{
    let mut out = encode_timestamp(&sp.last_time_used);
    let mut count = u32_to_le_bytes(sp.sessions_left);
    out.append(&mut count);
    out
}

/// Decodes a session pass, rejecting any blob of the wrong length and any
/// content outside the well-formed instant range.
pub fn decode_session_pass(b: &[u8]) -> (r: Result<SessionPass, DecodeError>)
    ensures
        r == spec_decode_session_pass(b@),
{
    if b.len() != SESSION_PASS_WIDTH {
        return Err(DecodeError::WrongLength);
    }
    let secs: i64 = #[verifier::truncate] (u64_from_le_bytes(slice_subrange(b, 0, 8)) as i64);
    let nanos: u32 = u32_from_le_bytes(slice_subrange(b, 8, 12));
    let count: u32 = u32_from_le_bytes(slice_subrange(b, 12, 16));
    proof {
        assert(b@.subrange(0, 12).subrange(0, 8) =~= b@.subrange(0, 8));
        assert(b@.subrange(0, 12).subrange(8, 12) =~= b@.subrange(8, 12));
    }
    if -SECS_LIMIT < secs && secs < SECS_LIMIT && nanos < NANOS_LIMIT {
        Ok(SessionPass { last_time_used: Timestamp { secs, nanos }, sessions_left: count })
    } else {
        Err(DecodeError::InvalidValue)
    }
}

/// Round trip of the underlying instant encoding.
proof fn lemma_timestamp_round_trip(ts: Timestamp)
    requires
        ts.wf(),
    ensures
        spec_encode_timestamp(ts).len() == 12,
        spec_decode_timestamp(spec_encode_timestamp(ts)) == ts,
{
    lemma_auto_spec_u64_to_from_le_bytes();
    lemma_auto_spec_u32_to_from_le_bytes();
    let enc = spec_encode_timestamp(ts);
    assert(enc.subrange(0, 8) =~= spec_u64_to_le_bytes(ts.secs as u64));
    assert(enc.subrange(8, 12) =~= spec_u32_to_le_bytes(ts.nanos));
    let s = ts.secs;
    assert(((s as u64) as i64) == s) by (bit_vector);
}

/// Law: decoding an encoded time pass gives the value back, for every
/// well-formed value.
pub proof fn lemma_time_pass_round_trip(tp: TimePass)
    requires
        tp.wf(),
    ensures
        spec_decode_time_pass(spec_encode_time_pass(tp)) == Ok::<TimePass, DecodeError>(tp),
{
    lemma_timestamp_round_trip(tp.expiry);
}

/// Law: decoding an encoded session pass gives the value back, for every
/// value whose last-use instant is well-formed.
pub proof fn lemma_session_pass_round_trip(sp: SessionPass)
    requires
        sp.last_time_used.wf(),
    ensures
        spec_decode_session_pass(spec_encode_session_pass(sp)) == Ok::<
            SessionPass,
            DecodeError,
        >(sp),
{
    lemma_timestamp_round_trip(sp.last_time_used);
    lemma_auto_spec_u32_to_from_le_bytes();
    let enc = spec_encode_session_pass(sp);
    assert(enc.subrange(0, 12) =~= spec_encode_timestamp(sp.last_time_used));
    assert(enc.subrange(12, 16) =~= spec_u32_to_le_bytes(sp.sessions_left));
}

/// Law: the decision engine's successor state persists faithfully: the
/// pass blobs that the mutated record binds decode back to exactly the
/// passes that the decision produced.
pub proof fn lemma_persisted_state_faithful(up: UserPass, now: Timestamp)
    requires
        up.wf(),
        now.wf(),
    ensures
        ({
            let next = up.key_transition(now).1;
            &&& spec_decode_time_pass(spec_encode_time_pass(next.time_pass)) == Ok::<
                TimePass,
                DecodeError,
            >(next.time_pass)
            &&& spec_decode_session_pass(spec_encode_session_pass(next.session_pass)) == Ok::<
                SessionPass,
                DecodeError,
            >(next.session_pass)
        }),
{
    let next = up.key_transition(now).1;
    lemma_time_pass_round_trip(next.time_pass);
    lemma_session_pass_round_trip(next.session_pass);
}

} // verus!
