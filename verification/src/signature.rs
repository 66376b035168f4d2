//! The signature by which a Tilt advertisement is told from other traffic.

use vstd::prelude::*;

verus! {

/// The shortest payload a Tilt device sends: the two framing bytes, the
/// sixteen bytes of the beacon identifier, and at least two more.
pub const MIN_PAYLOAD_LEN: usize = 20;

/// Where the colour code stands in the payload.
pub const COLOR_OFFSET: usize = 5;

/// The framing bytes at the start of the payload.
pub const FRAME_PREFIX: [u8; 2] = [0x02, 0x15];

/// The bytes of the beacon identifier before the colour code.
pub const UUID_PREFIX: [u8; 3] = [0xA4, 0x95, 0xBB];

/// The bytes of the beacon identifier after the colour code.
pub const UUID_SUFFIX: [u8; 12] = [
    0xC5, 0xB1, 0x4B, 0x44, 0xB5, 0x12, 0x13, 0x70, 0xF0, 0x2D, 0x74, 0xDE,
];

/// Whether a payload carries the Tilt signature: it is long enough, starts
/// with the framing bytes, and holds the Tilt beacon identifier around the
/// colour code.
pub open spec fn is_tilt_payload(p: Seq<u8>) -> bool {
    &&& p.len() >= MIN_PAYLOAD_LEN
    &&& p.subrange(0, 2) == FRAME_PREFIX@
    &&& p.subrange(2, 5) == UUID_PREFIX@
    &&& p.subrange(6, 18) == UUID_SUFFIX@
}

/// Whether `pattern` stands in `data` at offset `at`.
fn has_bytes_at(data: &[u8], at: usize, pattern: &[u8]) -> (found: bool)
    requires
        at + pattern@.len() <= data@.len(),
    ensures
        found == (data@.subrange(at as int, at + pattern@.len()) == pattern@),
{
    let len: usize = data.len();
    let mut i: usize = 0;
    while i < pattern.len()
        invariant
            i <= pattern@.len(),
            at + pattern@.len() <= data@.len() == len,
            forall|k: int| 0 <= k < i ==> data@[at + k] == pattern@[k],
        decreases pattern@.len() - i,
    {
        if data[at + i] != pattern[i] {
            assert(data@.subrange(at as int, at + pattern@.len())[i as int] != pattern@[i as int]);
            return false;
        }
        i += 1;
    }
    assert(data@.subrange(at as int, at + pattern@.len()) =~= pattern@);
    true
}

/// Decides whether a manufacturer-data payload is a Tilt advertisement.
/// Every payload gets an answer; one that is too short or differs from the
/// signature in any byte is not a Tilt advertisement.
pub fn is_tilt_advertisement(payload: &[u8]) -> (ok: bool)
    ensures
        ok == is_tilt_payload(payload@),
        payload@.len() < 20 ==> !ok,
        payload@.len() >= 20 && (payload@[0] != 0x02 || payload@[1] != 0x15) ==> !ok,
{
    proof {
        lemma_signature_bytes(payload@);
    }
    payload.len() >= MIN_PAYLOAD_LEN
        && has_bytes_at(payload, 0, &FRAME_PREFIX)
        && has_bytes_at(payload, 2, &UUID_PREFIX)
        && has_bytes_at(payload, 6, &UUID_SUFFIX)
}

/// The signature byte by byte: a payload carries it exactly when it has at
/// least twenty bytes and each of the seventeen fixed positions holds its
/// byte. Position 5, the colour code, and everything from position 18 on are
/// free.
pub proof fn lemma_signature_bytes(p: Seq<u8>)
    ensures
        is_tilt_payload(p) <==> {
            &&& p.len() >= 20
            &&& p[0] == 0x02 && p[1] == 0x15
            &&& p[2] == 0xA4 && p[3] == 0x95 && p[4] == 0xBB
            &&& p[6] == 0xC5 && p[7] == 0xB1 && p[8] == 0x4B && p[9] == 0x44
            &&& p[10] == 0xB5 && p[11] == 0x12 && p[12] == 0x13 && p[13] == 0x70
            &&& p[14] == 0xF0 && p[15] == 0x2D && p[16] == 0x74 && p[17] == 0xDE
        },
{
    if p.len() >= 20 {
        let frame = p.subrange(0, 2);
        let head = p.subrange(2, 5);
        let tail = p.subrange(6, 18);
        assert(frame[0] == p[0] && frame[1] == p[1]);
        assert(head[0] == p[2] && head[1] == p[3] && head[2] == p[4]);
        assert(tail[0] == p[6] && tail[1] == p[7] && tail[2] == p[8] && tail[3] == p[9]);
        assert(tail[4] == p[10] && tail[5] == p[11] && tail[6] == p[12] && tail[7] == p[13]);
        assert(tail[8] == p[14] && tail[9] == p[15] && tail[10] == p[16] && tail[11] == p[17]);
        assert(frame =~= FRAME_PREFIX@ <==> p[0] == 0x02 && p[1] == 0x15);
        assert(head =~= UUID_PREFIX@ <==> p[2] == 0xA4 && p[3] == 0x95 && p[4] == 0xBB);
        assert(tail =~= UUID_SUFFIX@ <==> tail[0] == 0xC5 && tail[1] == 0xB1 && tail[2] == 0x4B
            && tail[3] == 0x44 && tail[4] == 0xB5 && tail[5] == 0x12 && tail[6] == 0x13 && tail[7]
            == 0x70 && tail[8] == 0xF0 && tail[9] == 0x2D && tail[10] == 0x74 && tail[11] == 0xDE);
    }
}

/// A payload put together from the framing bytes, the identifier with any
/// byte at all in the colour position, and two or more further bytes carries
/// the signature.
pub proof fn lemma_signature_accepts(code: u8, rest: Seq<u8>)
    requires
        rest.len() >= 2,
    ensures
        is_tilt_payload(FRAME_PREFIX@ + UUID_PREFIX@ + seq![code] + UUID_SUFFIX@ + rest),
{
    let p = FRAME_PREFIX@ + UUID_PREFIX@ + seq![code] + UUID_SUFFIX@ + rest;
    assert(p.subrange(0, 2) =~= FRAME_PREFIX@);
    assert(p.subrange(2, 5) =~= UUID_PREFIX@);
    assert(p.subrange(6, 18) =~= UUID_SUFFIX@);
}

/// Changing any one byte of the signature, in the framing bytes or in the
/// identifier on either side of the colour code, loses the signature.
pub proof fn lemma_signature_mutation(p: Seq<u8>, i: int, byte: u8)
    requires
        is_tilt_payload(p),
        0 <= i < 18,
        i != COLOR_OFFSET,
        byte != p[i],
    ensures
        !is_tilt_payload(p.update(i, byte)),
{
    lemma_signature_bytes(p);
    lemma_signature_bytes(p.update(i, byte));
}

/// The signature does not depend on the colour code nor on the bytes after
/// the identifier.
pub proof fn lemma_signature_free_bytes(p: Seq<u8>, i: int, byte: u8)
    requires
        is_tilt_payload(p),
        i == COLOR_OFFSET || 18 <= i < p.len(),
    ensures
        is_tilt_payload(p.update(i, byte)),
{
    lemma_signature_bytes(p);
    lemma_signature_bytes(p.update(i, byte));
}

} // verus!
