//! Heart Rate Measurement payloads: a flags byte followed by the rate, one
//! byte wide or two bytes little-endian as bit 0 of the flags selects.

use vstd::prelude::*;

verus! {

/// Largest heart rate carried downstream (one byte in the file and on the wire).
pub const SAMPLE_MAX: u16 = 255;

/// Bit 0 of the flags byte: the rate is a 16-bit little-endian value.
pub open spec fn is_wide(flags: u8) -> bool {
    flags % 2 == 1
}

/// Number of bytes a payload needs for the width its flags declare.
pub open spec fn required_len(flags: u8) -> nat {
    if is_wide(flags) {
        3
    } else {
        2
    }
}

/// The rate a payload carries, or `None` when it is too short for its width.
pub open spec fn decoded(p: Seq<u8>) -> Option<u16> {
    if p.len() < 2 || p.len() < required_len(p[0]) {
        None
    } else if is_wide(p[0]) {
        Some((p[1] as int + 256 * p[2] as int) as u16)
    } else {
        Some(p[1] as u16)
    }
}

/// A rate clamped to one byte.
pub open spec fn clamped(v: u16) -> u8 {
    if v > 255 {
        255
    } else {
        v as u8
    }
}

/// Decodes the heart rate of a measurement payload.
pub fn decode_heart_rate(payload: &[u8]) -> (r: Option<u16>)
    ensures
        r == decoded(payload@),
{
    if payload.len() < 2 {
        return None;
    }
    let flags = payload[0];
    assert(flags & 1u8 == 0u8 <==> flags % 2 == 0) by (bit_vector);
    if flags & 1u8 == 0 {
        Some(payload[1] as u16)
    } else {
        if payload.len() < 3 {
            return None;
        }
        Some(payload[1] as u16 + (payload[2] as u16) * 256)
    }
}

/// Clamps a decoded rate to the single byte used downstream.
pub fn clamp_sample(v: u16) -> (r: u8)
    ensures
        r == clamped(v),
        r as int == if v > 255 { 255 } else { v as int },
{
    if v > SAMPLE_MAX {
        255
    } else {
        v as u8
    }
}

/// The sample a notification yields: its payload decoded and clamped when it
/// comes from the heart-rate characteristic, nothing otherwise.
pub open spec fn notification_sample(uuid: u128, payload: Seq<u8>, target: u128) -> Option<u8> {
    if uuid != target {
        None
    } else {
        match decoded(payload) {
            Some(v) => Some(clamped(v)),
            None => None,
        }
    }
}

/// Turns a notification into a sample, skipping unrelated or malformed ones.
pub fn sample_from_notification(uuid: u128, payload: &[u8], target: u128) -> (r: Option<u8>)
    ensures
        r == notification_sample(uuid, payload@, target),
{
    if uuid != target {
        return None;
    }
    match decode_heart_rate(payload) {
        Some(v) => Some(clamp_sample(v)),
        None => None,
    }
}

/// With bit 0 of the flags clear, a payload of two bytes or more carries its
/// second byte as the rate.
pub proof fn lemma_narrow_rate(p: Seq<u8>)
    requires
        p.len() >= 2,
        p[0] & 1u8 == 0u8,
    ensures
        decoded(p) == Some(p[1] as u16),
{
    let f = p[0];
    assert(f & 1u8 == 0u8 ==> f % 2 == 0) by (bit_vector);
}

/// With bit 0 of the flags set, a payload of three bytes or more carries the
/// little-endian value of its second and third bytes as the rate.
pub proof fn lemma_wide_rate(p: Seq<u8>)
    requires
        p.len() >= 3,
        p[0] & 1u8 == 1u8,
    ensures
        decoded(p) == Some((p[1] as int + 256 * p[2] as int) as u16),
        p[1] as int + 256 * p[2] as int <= u16::MAX,
{
    let f = p[0];
    assert(f & 1u8 == 1u8 ==> f % 2 == 1) by (bit_vector);
}

/// A payload shorter than its declared width (or without a flags byte) is
/// rejected, and no sample comes of it.
pub proof fn lemma_short_rejected(uuid: u128, p: Seq<u8>, target: u128)
    requires
        p.len() == 0 || p.len() < required_len(p[0]),
    ensures
        decoded(p) is None,
        notification_sample(uuid, p, target) is None,
{
}

} // verus!
