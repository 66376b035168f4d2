//! Decoding of a payload that carries the Tilt signature.

use vstd::prelude::*;
use crate::color::{code_to_color, color_of_code, TiltColor};
use crate::reading::{Reading, Timestamp};
use crate::signature::{is_tilt_advertisement, is_tilt_payload, COLOR_OFFSET};

verus! {

/// The unsigned sixteen-bit value whose high byte is `hi` and whose low byte
/// is `lo`.
pub open spec fn be16(hi: u8, lo: u8) -> u16 {
    (256 * hi + lo) as u16
}

/// The temperature field: the two bytes that end four bytes before the end of
/// the payload, high byte first.
pub open spec fn temperature_of(p: Seq<u8>) -> u16 {
    be16(p[p.len() - 5], p[p.len() - 4])
}

/// The gravity field, in thousandths: the two bytes that end two bytes before
/// the end of the payload, high byte first.
pub open spec fn gravity_of(p: Seq<u8>) -> u16 {
    be16(p[p.len() - 3], p[p.len() - 2])
}

/// The reading that a payload with the Tilt signature holds, stamped with
/// `time`; none if its colour code is not a known one.
pub open spec fn decoded(p: Seq<u8>, time: Timestamp) -> Option<Reading> {
    match color_of_code(p[COLOR_OFFSET as int]) {
        Some(color) => Some(
            Reading { time, color, temp: temperature_of(p), sg_milli: gravity_of(p) },
        ),
        None => None,
    }
}

/// The reading that any payload holds: that of `decoded` if it carries the
/// Tilt signature, none otherwise.
pub open spec fn reading_of(p: Seq<u8>, time: Timestamp) -> Option<Reading> {
    if is_tilt_payload(p) {
        decoded(p, time)
    } else {
        None
    }
}

/// Joins two bytes into one value, high byte first.
fn join_be(hi: u8, lo: u8) -> (value: u16)
    ensures
        value == be16(hi, lo),
        value == 256 * hi + lo,
{
    let value: u16 = ((hi as u16) << 8) | (lo as u16);
    assert(((hi as u16) << 8) | (lo as u16) == 256 * (hi as u16) + (lo as u16)) by (bit_vector);
    value
}

/// Decodes a payload that carries the Tilt signature and stamps the reading
/// with `time`. The fields are found from the end of the payload, so that a
/// payload with a trailing transmit-power byte and one with further bytes
/// behind it decode alike. A payload whose colour code is none of the eight
/// known ones gives no reading.
pub fn decode(payload: &[u8], time: Timestamp) -> (reading: Option<Reading>)
    requires
        is_tilt_payload(payload@),
    ensures
        reading == decoded(payload@, time),
        reading is Some <==> color_of_code(payload@[5]) is Some,
        reading matches Some(r) ==> {
            &&& r.time == time
            &&& color_of_code(payload@[5]) == Some(r.color)
            &&& r.temp == 256 * payload@[payload@.len() - 5] + payload@[payload@.len() - 4]
            &&& r.sg_milli == 256 * payload@[payload@.len() - 3] + payload@[payload@.len() - 2]
        },
{
    let len: usize = payload.len();
    match code_to_color(payload[COLOR_OFFSET]) {
        Some(color) => {
            let temp: u16 = join_be(payload[len - 5], payload[len - 4]);
            let sg_milli: u16 = join_be(payload[len - 3], payload[len - 2]);
            Some(Reading { time, color, temp, sg_milli })
        },
        None => None,
    }
}

/// Validates a payload and, if it is a Tilt advertisement, decodes it.
/// A payload without the signature, or with an unknown colour code, gives no
/// reading.
pub fn read_advertisement(payload: &[u8], time: Timestamp) -> (reading: Option<Reading>)
    ensures
        reading == reading_of(payload@, time),
{
    if is_tilt_advertisement(payload) {
        decode(payload, time)
    } else {
        None
    }
}

/// A payload that carries the signature and the code of a colour decodes to a
/// reading of that colour, with its two fields read from the end and the time
/// it was given.
pub proof fn lemma_decode_known_color(p: Seq<u8>, time: Timestamp, color: TiltColor)
    requires
        is_tilt_payload(p),
        p[5] == color.code_spec(),
    ensures
        decoded(p, time) == Some(
            Reading { time, color, temp: temperature_of(p), sg_milli: gravity_of(p) },
        ),
{
}

/// A payload whose colour byte is none of the eight codes decodes to nothing,
/// and nothing else does.
pub proof fn lemma_decode_unknown_color(p: Seq<u8>, time: Timestamp)
    ensures
        decoded(p, time) is None <==> !(0x10 <= p[5] <= 0x80 && p[5] % 16 == 0),
{
}

/// Decoding depends on the time only in the timestamp: the same payload
/// decoded at two times gives a reading both times or neither time, and the
/// two readings measure the same.
pub proof fn lemma_decode_repeatable(p: Seq<u8>, first: Timestamp, second: Timestamp)
    ensures
        decoded(p, first) is Some <==> decoded(p, second) is Some,
        decoded(p, first) matches Some(a) ==> decoded(p, second) matches Some(b)
            && a.same_measurement_spec(b) && a.time == first && b.time == second,
        first == second ==> decoded(p, first) == decoded(p, second),
{
}

} // verus!
