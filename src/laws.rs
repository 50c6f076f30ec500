//! Properties that relate several operations of the codec.
use vstd::prelude::*;

use crate::address::{
    AddressError, AddressModel, valid_payload, to_bytes_spec, from_bytes_spec, checked_spec, checksum_of, parse_text, MAX_ADDRESS_STRING_LEN, MAX_U64_LEN,
};
use crate::network::{Network, prefix_char};
use crate::primitives::varint_spec;
use crate::protocol::{Protocol, protocol_tag, lemma_protocol_tags, CHECKSUM_HASH_LEN};

verus! {

/// `d` with bit `bit` of byte `i` flipped.
pub open spec fn flip_bit(d: Seq<u8>, i: int, bit: u8) -> Seq<u8> {
    d.update(i, d[i] ^ (1u8 << bit))
}

/// Binary round trip: every valid address reads back, unchanged, from its
/// binary form.
pub proof fn lemma_bytes_round_trip(a: AddressModel)
    requires
        valid_payload(a.0, a.1),
    ensures
        from_bytes_spec(to_bytes_spec(a)) == Ok::<AddressModel, AddressError>(a),
{
    if a.0 == Protocol::Id {
        let n = choose|n: u64| varint_spec(n as nat) == a.1;
        assert(varint_spec(n as nat).len() >= 1);
    }
    lemma_protocol_tags(a.0);
    assert(to_bytes_spec(a).skip(1) =~= a.1);
}

/// Checksum sensitivity: take the base32-decoded bytes `d` of a valid text
/// address of protocol `p` (a payload followed by its checksum). Flipping any
/// single bit of `d` makes decoding fail with `InvalidChecksum`. A flip in the
/// checksum is always caught; a flip in the payload is caught whenever the
/// altered payload's checksum differs from the embedded one (the checksum is
/// four bytes wide, so some payloads share it).
pub proof fn lemma_checksum_detects_flip(p: Protocol, d: Seq<u8>, i: int, bit: u8)
    requires
        p != Protocol::Id,
        checked_spec(p, d) is Ok,
        0 <= i < d.len(),
        bit < 8,
        i < d.len() - CHECKSUM_HASH_LEN ==> checksum_of(
            seq![protocol_tag(p)] + flip_bit(d, i, bit).take(d.len() - CHECKSUM_HASH_LEN),
        ) != d.skip(d.len() - CHECKSUM_HASH_LEN),
    ensures
        checked_spec(p, flip_bit(d, i, bit)) == Err::<AddressModel, AddressError>(
            AddressError::InvalidChecksum,
        ),
{
    let f = flip_bit(d, i, bit);
    let k = d.len() - CHECKSUM_HASH_LEN;
    let x = d[i];
    assert(x ^ (1u8 << bit) != x) by (bit_vector)
        requires
            bit < 8,
    ;
    if i >= k {
        assert(f.take(k) =~= d.take(k));
        assert(f.skip(k)[i - k] != d.skip(k)[i - k]);
    } else {
        assert(f.skip(k) =~= d.skip(k));
    }
}

/// An `Id` text whose decimal part has more than twenty characters is refused
/// with `InvalidLength`.
pub proof fn lemma_long_id_rejected(s: Seq<char>, n: Network)
    requires
        s.len() <= MAX_ADDRESS_STRING_LEN,
        s.len() > 2 + MAX_U64_LEN,
        s[0] == prefix_char(n),
        s[1] == '0',
    ensures
        parse_text(s, n) == Err::<AddressModel, AddressError>(AddressError::InvalidLength),
{
}

} // verus!
