//! Laws of the frame codec, stated over its spec functions.

use vstd::prelude::*;

use crate::frame::{
    decoded, declared_len, encoding, frame_body, kind_code, kind_of, xor_of, State, MAX_PAYLOAD,
};

verus! {

/// Encoder output put into the device-side reply layout: re-sliced from its
/// magic byte, with the zero reserved byte that the reply layout holds after
/// the kind code.
pub open spec fn reply_layout(out: Seq<u8>) -> Seq<u8> {
    out.subrange(1, 4) + seq![0x00u8] + out.subrange(4, out.len() as int)
}

/// Decoding the reply layout of an encoded frame gives back its kind and
/// payload, for every kind and every payload that fits the length field.
pub proof fn lemma_round_trip(kind: State, payload: Seq<u8>)
    requires
        payload.len() <= MAX_PAYLOAD,
    ensures
        decoded(reply_layout(encoding(kind, payload))) == Some((kind, payload)),
{
    let out = encoding(kind, payload);
    let raw = reply_layout(out);
    let n = payload.len();
    assert(out.len() == n + 7);
    assert(raw.len() == n + 7);
    assert(raw[0] == 0x55 && raw[1] == 0xAA && raw[2] == kind_code(kind) && raw[3] == 0);
    assert(raw[4] == (n % 256) as u8 && raw[5] == (n / 256) as u8);
    assert(declared_len(raw) == n);
    assert(kind_of(kind_code(kind)) == Some(kind));
    assert(raw.subrange(6, 6 + n as int) =~= payload);
}

/// Encoding is a function of the frame alone: equal frames encode to the
/// same bytes, and the last byte is the XOR of all the bytes before it.
pub proof fn lemma_checksum_deterministic(k1: State, p1: Seq<u8>, k2: State, p2: Seq<u8>)
    requires
        k1 == k2,
        p1 == p2,
    ensures
        encoding(k1, p1) == encoding(k2, p2),
        encoding(k1, p1).last() == xor_of(encoding(k1, p1).drop_last()),
{
    assert(encoding(k1, p1).drop_last() =~= frame_body(k1, p1));
}

/// A buffer that does not start with the two magic bytes holds no message.
pub proof fn lemma_bad_magic(raw: Seq<u8>)
    requires
        !(raw.len() >= 2 && raw[0] == 0x55 && raw[1] == 0xAA),
    ensures
        decoded(raw) is None,
{
}

/// A buffer whose reserved byte (offset 3) is not zero holds no message.
pub proof fn lemma_nonzero_reserved(raw: Seq<u8>)
    requires
        raw.len() >= 4,
        raw[3] != 0,
    ensures
        decoded(raw) is None,
{
}

/// A buffer whose kind byte is outside the code table holds no message.
pub proof fn lemma_unknown_kind(raw: Seq<u8>)
    requires
        raw.len() >= 3,
        raw[2] != 0x22 && raw[2] != 0x24 && raw[2] != 0x30 && raw[2] != 0x02 && raw[2] != 0x04,
    ensures
        decoded(raw) is None,
{
}

/// A buffer whose declared payload length runs past its end holds no message.
pub proof fn lemma_truncated_payload(raw: Seq<u8>)
    requires
        raw.len() >= 6,
        declared_len(raw) > raw.len() - 6,
    ensures
        decoded(raw) is None,
{
}

} // verus!
