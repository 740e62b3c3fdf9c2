//! Request construction and echo validation. Every request is exactly
//! `message_length` bytes whose last byte is a fixed terminator; the payload
//! ahead of it is either zeroed or random, and a response is correct only when
//! it is byte-identical to the request.

use vstd::prelude::*;

use crate::config::PayloadKind;

verus! {

/// Sentinel byte fixed as the last byte of every message (ASCII line feed).
pub const TERMINATOR: u8 = 10;

/// An ASCII letter or digit.
pub open spec fn is_alnum_byte(b: u8) -> bool {
    (48 <= b <= 57) || (65 <= b <= 90) || (97 <= b <= 122)
}

/// A well-formed request of length `len`: exactly `len` bytes, the last one
/// the terminator.
pub open spec fn is_message(bytes: Seq<u8>, len: int) -> bool {
    &&& bytes.len() == len
    &&& len >= 1
    &&& bytes[len - 1] == TERMINATOR
}

/// Relies on rand 0.8's `Alphanumeric` distribution: every sample is drawn
/// from the ASCII letters and digits.
#[verifier::external_body]
fn sample_alnum_byte() -> (r: u8)
    ensures
        is_alnum_byte(r),
{
    rand::Rng::sample(&mut rand::thread_rng(), rand::distributions::Alphanumeric)
}

/// Build one request: `length` bytes ending in the terminator, the payload
/// ahead of it zeroed or alphanumeric as asked. Either way no payload byte
/// equals the terminator, so the sentinel occurs exactly once.
pub fn build_message(length: usize, payload: PayloadKind) -> (r: Vec<u8>)
    requires
        length >= 1,
    ensures
        is_message(r@, length as int),
        payload is Zeroed ==> forall|i: int| 0 <= i < length - 1 ==> r@[i] == 0,
        payload is Random ==> forall|i: int| 0 <= i < length - 1 ==> is_alnum_byte(r@[i]),
{
    let mut buf: Vec<u8> = Vec::new();
    let mut i: usize = 0;
    while i < length - 1
        invariant
            length >= 1,
            i <= length - 1,
            buf@.len() == i,
            payload is Zeroed ==> forall|j: int| 0 <= j < i ==> buf@[j] == 0,
            payload is Random ==> forall|j: int| 0 <= j < i ==> is_alnum_byte(buf@[j]),
        decreases length - 1 - i,
    {
        match payload {
            PayloadKind::Zeroed => buf.push(0),
            PayloadKind::Random => buf.push(sample_alnum_byte()),
        }
        i = i + 1;
    }
    buf.push(TERMINATOR);
    buf
}

/// Compare an echoed response against the request it answers; true exactly
/// when the bytes are identical.
pub fn echo_matches(sent: &Vec<u8>, received: &Vec<u8>) -> (r: bool)
    ensures
        r <==> sent@ == received@,
{
    if sent.len() != received.len() {
        return false;
    }
    let mut i: usize = 0;
    while i < sent.len()
        invariant
            i <= sent@.len(),
            sent@.len() == received@.len(),
            forall|j: int| 0 <= j < i ==> sent@[j] == received@[j],
        decreases sent@.len() - i,
    {
        if sent[i] != received[i] {
            return false;
        }
        i = i + 1;
    }
    proof {
        assert(sent@ =~= received@);
    }
    true
}

} // verus!
