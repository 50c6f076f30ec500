//! The address entity and its two codecs: the binary form `tag ‖ payload` and
//! the text form `prefix ‖ digit ‖ encoded payload`.
use vstd::prelude::*;

use crate::decimal::{decimal_spec, decimal_string, parse_u64, parse_u64_spec, lemma_decimal_round_trip};
use crate::network::{Network, prefix_char, other_network};
use crate::primitives::{
    varint_spec, blake2b_of, base32_of, varint_encode_u64, varint_decode_u64, blake2b,
    base32_encode, base32_decode,
};
use crate::protocol::{
    Protocol, protocol_tag, protocol_of_tag, protocol_digit, protocol_of_digit, fixed_payload_len,
    PAYLOAD_HASH_LEN, BLS_PUBLIC_KEY_LEN, CHECKSUM_HASH_LEN, SECP256K1_FULL_PUBLIC_KEY_LEN,
    SECP256K1_RAW_PUBLIC_KEY_LEN, SECP256K1_COMPRESSED_PUBLIC_KEY_LEN,
};

verus! {

/// Longest accepted text form: prefix, digit and the base32 text of a BLS key
/// with its checksum.
pub const MAX_ADDRESS_STRING_LEN: usize = 86;

/// Most decimal digits of a 64-bit id.
pub const MAX_U64_LEN: usize = 20;

/// Errors of address construction and decoding.
#[derive(PartialEq, Eq, Structural, Clone, Copy, Debug, Hash)]
pub enum AddressError {
    /// The text prefix is neither `f` nor `t`.
    UnknownNetwork,
    /// The text prefix is valid but not the active network's.
    MismatchNetwork,
    /// The protocol tag or digit is not one of the four.
    UnknownProtocol,
    /// The payload does not have the protocol's shape.
    InvalidPayload,
    /// The input is too short or too long.
    InvalidLength,
    /// The embedded checksum differs from the recomputed one.
    InvalidChecksum,
    /// The base32 text is malformed.
    Base32Decode,
}

/// The mathematical value of an address: its protocol and its payload bytes.
pub type AddressModel = (Protocol, Seq<u8>);

/// The id that an `Id` payload encodes.
pub open spec fn id_of(payload: Seq<u8>) -> u64 {
    choose|n: u64| varint_spec(n as nat) == payload
}

/// Whether `payload` has the shape that protocol `p` requires.
pub open spec fn valid_payload(p: Protocol, payload: Seq<u8>) -> bool {
    match p {
        Protocol::Id => exists|n: u64| varint_spec(n as nat) == payload,
        _ => payload.len() == fixed_payload_len(p),
    }
}

/// The one validated construction path.
pub open spec fn new_spec(p: Protocol, payload: Seq<u8>) -> Result<AddressModel, AddressError> {
    if valid_payload(p, payload) {
        Ok((p, payload))
    } else {
        Err(AddressError::InvalidPayload)
    }
}

/// The 20-byte digest that `Secp256k1` and `Actor` addresses carry.
pub open spec fn address_hash_of(b: Seq<u8>) -> Seq<u8> {
    blake2b_of(b, PAYLOAD_HASH_LEN as nat)
}

/// The 4-byte checksum of the text form.
pub open spec fn checksum_of(b: Seq<u8>) -> Seq<u8> {
    blake2b_of(b, CHECKSUM_HASH_LEN as nat)
}

/// The binary form: the tag byte followed by the payload.
pub open spec fn to_bytes_spec(a: AddressModel) -> Seq<u8> {
    seq![protocol_tag(a.0)] + a.1
}

/// Decoding of the binary form.
pub open spec fn from_bytes_spec(b: Seq<u8>) -> Result<AddressModel, AddressError> {
    if b.len() <= 1 {
        Err(AddressError::InvalidLength)
    } else {
        match protocol_of_tag(b[0]) {
            None => Err(AddressError::UnknownProtocol),
            Some(p) => new_spec(p, b.skip(1)),
        }
    }
}

/// The bytes that the text form of a non-`Id` address encodes in base32: the
/// payload followed by the checksum of the binary form.
pub open spec fn checked_payload(a: AddressModel) -> Seq<u8> {
    a.1 + checksum_of(to_bytes_spec(a))
}

/// The text form of an address under network `n`.
pub open spec fn text_of(a: AddressModel, n: Network) -> Seq<char> {
    seq![prefix_char(n), protocol_digit(a.0)] + match a.0 {
        Protocol::Id => decimal_spec(id_of(a.1) as nat),
        _ => base32_of(checked_payload(a)),
    }
}

/// Decoding of base32-decoded bytes for protocol `p`: the payload, then a
/// checksum over the binary form.
pub open spec fn checked_spec(p: Protocol, d: Seq<u8>) -> Result<AddressModel, AddressError> {
    if d.len() < CHECKSUM_HASH_LEN || d.len() - CHECKSUM_HASH_LEN != fixed_payload_len(p) {
        Err(AddressError::InvalidPayload)
    } else {
        let payload = d.take(d.len() - CHECKSUM_HASH_LEN);
        if checksum_of(seq![protocol_tag(p)] + payload) == d.skip(d.len() - CHECKSUM_HASH_LEN) {
            Ok((p, payload))
        } else {
            Err(AddressError::InvalidChecksum)
        }
    }
}

/// Decoding of the text form while network `n` is active.
pub open spec fn parse_text(s: Seq<char>, n: Network) -> Result<AddressModel, AddressError> {
    if s.len() < 3 || s.len() > MAX_ADDRESS_STRING_LEN {
        Err(AddressError::InvalidLength)
    } else if s[0] != 'f' && s[0] != 't' {
        Err(AddressError::UnknownNetwork)
    } else if s[0] != prefix_char(n) {
        Err(AddressError::MismatchNetwork)
    } else {
        let raw = s.skip(2);
        match protocol_of_digit(s[1]) {
            None => Err(AddressError::UnknownProtocol),
            Some(Protocol::Id) => {
                if raw.len() > MAX_U64_LEN {
                    Err(AddressError::InvalidLength)
                } else {
                    match parse_u64_spec(raw) {
                        Some(id) => Ok((Protocol::Id, varint_spec(id as nat))),
                        None => Err(AddressError::InvalidPayload),
                    }
                }
            },
            Some(p) => {
                if exists|d: Seq<u8>| base32_of(d) == raw {
                    checked_spec(p, choose|d: Seq<u8>| base32_of(d) == raw)
                } else {
                    Err(AddressError::Base32Decode)
                }
            },
        }
    }
}

/// A result of the library's functions, seen through the address's value.
pub open spec fn result_view(r: Result<Address, AddressError>) -> Result<AddressModel, AddressError> {
    match r {
        Ok(a) => Ok(a@),
        Err(e) => Err(e),
    }
}

/// A validated address: its payload always has the shape that its protocol
/// requires.
#[derive(Debug, Hash)]
pub struct Address {
    protocol: Protocol,
    payload: Vec<u8>,
}

impl View for Address {
    type V = AddressModel;

    closed spec fn view(&self) -> AddressModel {
        (self.protocol, self.payload@)
    }
}

/// Byte sequences compared element by element.
pub fn bytes_eq(a: &[u8], b: &[u8]) -> (r: bool)
    ensures
        r == (a@ == b@),
{
    if a.len() != b.len() {
        return false;
    }
    let mut i: usize = 0;
    while i < a.len()
        invariant
            i <= a@.len(),
            a@.len() == b@.len(),
            a@.take(i as int) == b@.take(i as int),
        decreases a.len() - i,
    {
        if a[i] != b[i] {
            return false;
        }
        proof {
            assert(a@.take(i + 1) =~= a@.take(i as int).push(a@[i as int]));
            assert(b@.take(i + 1) =~= b@.take(i as int).push(b@[i as int]));
        }
        i = i + 1;
    }
    proof {
        assert(a@ =~= a@.take(i as int));
        assert(b@ =~= b@.take(i as int));
    }
    true
}

/// Copy `b[from..to]` into a new vector.
fn copy_range(b: &[u8], from: usize, to: usize) -> (r: Vec<u8>)
    requires
        from <= to <= b@.len(),
    ensures
        r@ == b@.subrange(from as int, to as int),
{
    let mut r: Vec<u8> = Vec::new();
    let mut i: usize = from;
    while i < to
        invariant
            from <= i <= to <= b@.len(),
            r@ == b@.subrange(from as int, i as int),
        decreases to - i,
    {
        r.push(b[i]);
        proof {
            assert(b@.subrange(from as int, i + 1) =~= b@.subrange(from as int, i as int).push(b@[i as int]));
        }
        i = i + 1;
    }
    r
}

/// The tag byte of `p` followed by `payload`.
fn tagged(p: Protocol, payload: &[u8]) -> (r: Vec<u8>)
    ensures
        r@ == seq![protocol_tag(p)] + payload@,
{
    let mut r: Vec<u8> = Vec::new();
    r.push(p.as_byte());
    let mut i: usize = 0;
    while i < payload.len()
        invariant
            i <= payload@.len(),
            r@ == seq![protocol_tag(p)] + payload@.take(i as int),
        decreases payload.len() - i,
    {
        r.push(payload[i]);
        proof {
            assert(payload@.take(i + 1) =~= payload@.take(i as int).push(payload@[i as int]));
        }
        i = i + 1;
    }
    proof {
        assert(payload@.take(i as int) =~= payload@);
    }
    r
}

impl Clone for Address {
    fn clone(&self) -> (r: Self)
        ensures
            r@ == self@,
    {
        proof {
            use_type_invariant(self);
        }
        let payload = copy_range(self.payload.as_slice(), 0, self.payload.len());
        proof {
            assert(payload@ =~= self.payload@);
        }
        Address { protocol: self.protocol, payload }
    }
}

impl PartialEq for Address {
    fn eq(&self, other: &Address) -> (r: bool) {
        self.protocol == other.protocol && bytes_eq(self.payload.as_slice(), other.payload.as_slice())
    }
}

impl vstd::std_specs::cmp::PartialEqSpecImpl for Address {
    open spec fn obeys_eq_spec() -> bool {
        true
    }

    open spec fn eq_spec(&self, other: &Address) -> bool {
        self@ == other@
    }
}

impl Eq for Address {}

impl Address {
    #[verifier::type_invariant]
    spec fn inv(self) -> bool {
        valid_payload(self.protocol, self.payload@)
    }

    /// Create an address with the given protocol and payload, after checking
    /// the payload's shape.
    pub(crate) fn new(protocol: Protocol, payload: Vec<u8>) -> (r: Result<Self, AddressError>)
        ensures
            result_view(r) == new_spec(protocol, payload@),
    {
        match protocol {
            Protocol::Id => {
                match varint_decode_u64(payload.as_slice()) {
                    Some(n) => {
                        let canonical = varint_encode_u64(n);
                        if bytes_eq(canonical.as_slice(), payload.as_slice()) {
                            Ok(Address { protocol, payload })
                        } else {
                            proof {
                                if exists|m: u64| varint_spec(m as nat) == payload@ {
                                    let m = choose|m: u64| varint_spec(m as nat) == payload@;
                                    assert(varint_spec(m as nat) == payload@);
                                }
                            }
                            Err(AddressError::InvalidPayload)
                        }
                    },
                    None => {
                        proof {
                            if exists|m: u64| varint_spec(m as nat) == payload@ {
                                let m = choose|m: u64| varint_spec(m as nat) == payload@;
                                assert(varint_spec(m as nat) == payload@);
                            }
                        }
                        Err(AddressError::InvalidPayload)
                    },
                }
            },
            Protocol::Secp256k1 | Protocol::Actor => {
                if payload.len() != PAYLOAD_HASH_LEN {
                    Err(AddressError::InvalidPayload)
                } else {
                    Ok(Address { protocol, payload })
                }
            },
            Protocol::Bls => {
                if payload.len() != BLS_PUBLIC_KEY_LEN {
                    Err(AddressError::InvalidPayload)
                } else {
                    Ok(Address { protocol, payload })
                }
            },
        }
    }

    /// Create an address using the `Id` protocol.
    pub fn new_id_addr(id: u64) -> (r: Result<Self, AddressError>)
        ensures
            result_view(r) == Ok::<AddressModel, AddressError>((Protocol::Id, varint_spec(id as nat))),
    {
        let payload = varint_encode_u64(id);
        Self::new(Protocol::Id, payload)
    }

    /// Create an address using the `Secp256k1` protocol from a public key in
    /// one of its three accepted encodings (full, raw or compressed).
    pub fn new_secp256k1_addr(pubkey: &[u8]) -> (r: Result<Self, AddressError>)
        ensures
            result_view(r) == (if pubkey@.len() == SECP256K1_FULL_PUBLIC_KEY_LEN
                || pubkey@.len() == SECP256K1_RAW_PUBLIC_KEY_LEN
                || pubkey@.len() == SECP256K1_COMPRESSED_PUBLIC_KEY_LEN {
                Ok::<AddressModel, AddressError>((Protocol::Secp256k1, address_hash_of(pubkey@)))
            } else {
                Err(AddressError::InvalidPayload)
            }),
    {
        if pubkey.len() != SECP256K1_FULL_PUBLIC_KEY_LEN && pubkey.len() != SECP256K1_RAW_PUBLIC_KEY_LEN
            && pubkey.len() != SECP256K1_COMPRESSED_PUBLIC_KEY_LEN {
            return Err(AddressError::InvalidPayload);
        }
        Self::new(Protocol::Secp256k1, blake2b(pubkey, PAYLOAD_HASH_LEN))
    }

    /// Create an address using the `Actor` protocol from actor-init data.
    pub fn new_actor_addr(data: &[u8]) -> (r: Result<Self, AddressError>)
        ensures
            result_view(r) == Ok::<AddressModel, AddressError>((Protocol::Actor, address_hash_of(data@))),
    {
        Self::new(Protocol::Actor, blake2b(data, PAYLOAD_HASH_LEN))
    }

    /// Create an address using the `BLS` protocol from a raw public key.
    pub fn new_bls_addr(pubkey: &[u8]) -> (r: Result<Self, AddressError>)
        ensures
            result_view(r) == (if pubkey@.len() == BLS_PUBLIC_KEY_LEN {
                Ok::<AddressModel, AddressError>((Protocol::Bls, pubkey@))
            } else {
                Err(AddressError::InvalidPayload)
            }),
    {
        let payload = copy_range(pubkey, 0, pubkey.len());
        proof {
            assert(payload@ =~= pubkey@);
        }
        Self::new(Protocol::Bls, payload)
    }

    /// Create an address from its binary form (tag byte followed by payload).
    pub fn new_from_bytes(addr: &[u8]) -> (r: Result<Self, AddressError>)
        ensures
            result_view(r) == from_bytes_spec(addr@),
    {
        if addr.len() <= 1 {
            return Err(AddressError::InvalidLength);
        }
        match Protocol::from_byte(addr[0]) {
            None => Err(AddressError::UnknownProtocol),
            Some(protocol) => Self::new(protocol, copy_range(addr, 1, addr.len())),
        }
    }

    /// The network under which addresses are written when no other is chosen.
    pub fn network(&self) -> (r: Network)
        ensures
            r == Network::Test,
    {
        Network::default()
    }

    /// Return the protocol of the address.
    pub fn protocol(&self) -> (r: Protocol)
        ensures
            r == self@.0,
    {
        self.protocol
    }

    /// Return the payload of the address.
    pub fn payload(&self) -> (r: &[u8])
        ensures
            r@ == self@.1,
    {
        self.payload.as_slice()
    }

    /// The id of an `Id` address; `None` for the other protocols.
    pub fn as_id(&self) -> (r: Option<u64>)
        ensures
            r == (if self@.0 == Protocol::Id { Some(id_of(self@.1)) } else { None::<u64> }),
            self@.0 == Protocol::Id ==> varint_spec(id_of(self@.1) as nat) == self@.1,
    {
        proof {
            use_type_invariant(self);
        }
        match self.protocol {
            Protocol::Id => {
                proof {
                    let n = id_of(self.payload@);
                    assert(varint_spec(n as nat) == self.payload@);
                }
                varint_decode_u64(self.payload.as_slice())
            },
            _ => None,
        }
    }

    /// Return the binary form of the address (tag byte followed by payload).
    pub fn as_bytes(&self) -> (r: Vec<u8>)
        ensures
            r@ == to_bytes_spec(self@),
            r@.len() == 1 + self@.1.len(),
    {
        tagged(self.protocol, self.payload.as_slice())
    }

    /// Return the checksum of the binary form.
    pub fn checksum(&self) -> (r: Vec<u8>)
        ensures
            r@ == checksum_of(to_bytes_spec(self@)),
            r@.len() == CHECKSUM_HASH_LEN,
    {
        let bytes = self.as_bytes();
        blake2b(bytes.as_slice(), CHECKSUM_HASH_LEN)
    }

    /// Build a `Secp256k1`, `Actor` or `Bls` address from the base32-decoded
    /// bytes of its text form: the payload, then the checksum of the binary
    /// form.
    pub fn new_with_check(protocol: Protocol, decoded: &[u8]) -> (r: Result<Self, AddressError>)
        requires
            protocol != Protocol::Id,
        ensures
            result_view(r) == checked_spec(protocol, decoded@),
    {
        let payload_size = if let Protocol::Bls = protocol { BLS_PUBLIC_KEY_LEN } else { PAYLOAD_HASH_LEN };
        if decoded.len() < CHECKSUM_HASH_LEN || decoded.len() - CHECKSUM_HASH_LEN != payload_size {
            return Err(AddressError::InvalidPayload);
        }
        let split = decoded.len() - CHECKSUM_HASH_LEN;
        let payload = copy_range(decoded, 0, split);
        let bytes = tagged(protocol, payload.as_slice());
        let expected = blake2b(bytes.as_slice(), CHECKSUM_HASH_LEN);
        let claimed = copy_range(decoded, split, decoded.len());
        proof {
            assert(payload@ == decoded@.take(split as int));
            assert(claimed@ == decoded@.skip(split as int));
        }
        if !bytes_eq(expected.as_slice(), claimed.as_slice()) {
            return Err(AddressError::InvalidChecksum);
        }
        Self::new(protocol, payload)
    }

    /// The text form of the address under network `network`: the network
    /// prefix, the protocol digit, then the decimal id (`Id`) or the base32
    /// text of the payload followed by its checksum. Reading it back under the
    /// same network gives this address; under the other network it is refused.
    pub fn to_text(&self, network: Network) -> (r: String)
        ensures
            r@ == text_of(self@, network),
            parse_text(r@, network) == Ok::<AddressModel, AddressError>(self@),
            parse_text(r@, other_network(network)) == Err::<AddressModel, AddressError>(
                AddressError::MismatchNetwork,
            ),
    {
        proof {
            use_type_invariant(self);
        }
        let mut s = String::from_str(network.prefix());
        s.append(self.protocol.digit_str());
        let ghost head = s@;
        match self.protocol {
            Protocol::Id => {
                let id: u64 = match self.as_id() {
                    Some(n) => n,
                    None => 0,
                };
                let digits = decimal_string(id);
                s.append(digits.as_str());
                proof {
                    lemma_decimal_round_trip(id);
                    assert(s@.skip(2) =~= digits@);
                }
            },
            _ => {
                let mut bytes = copy_range(self.payload.as_slice(), 0, self.payload.len());
                let mut cs = self.checksum();
                bytes.append(&mut cs);
                proof {
                    assert(bytes@ =~= checked_payload(self@));
                }
                let text = base32_encode(bytes.as_slice());
                s.append(text.as_str());
                proof {
                    let raw = s@.skip(2);
                    assert(raw =~= base32_of(bytes@));
                    assert(exists|d: Seq<u8>| base32_of(d) == raw);
                    let d = choose|d: Seq<u8>| base32_of(d) == raw;
                    assert(d == bytes@);
                    let k = bytes@.len() - CHECKSUM_HASH_LEN;
                    assert(bytes@.take(k) =~= self.payload@);
                    assert(bytes@.skip(k) =~= checksum_of(to_bytes_spec(self@)));
                }
            },
        }
        proof {
            assert(s@ =~= text_of(self@, network));
        }
        s
    }

    /// Read an address from its text form while network `network` is active.
    pub fn from_text(s: &str, network: Network) -> (r: Result<Self, AddressError>)
        ensures
            result_view(r) == parse_text(s@, network),
    {
        let len = s.unicode_len();
        if len < 3 || len > MAX_ADDRESS_STRING_LEN {
            return Err(AddressError::InvalidLength);
        }
        let c0 = s.get_char(0);
        if c0 != 'f' && c0 != 't' {
            return Err(AddressError::UnknownNetwork);
        }
        if c0 != network.prefix_char() {
            return Err(AddressError::MismatchNetwork);
        }
        let protocol = match Protocol::from_digit(s.get_char(1)) {
            Some(p) => p,
            None => {
                return Err(AddressError::UnknownProtocol);
            },
        };
        let raw = s.substring_char(2, len);
        proof {
            assert(raw@ =~= s@.skip(2));
        }
        match protocol {
            Protocol::Id => {
                if len - 2 > MAX_U64_LEN {
                    return Err(AddressError::InvalidLength);
                }
                match parse_u64(raw) {
                    Some(id) => Self::new_id_addr(id),
                    None => Err(AddressError::InvalidPayload),
                }
            },
            _ => {
                match base32_decode(raw) {
                    Ok(decoded) => {
                        proof {
                            let d = choose|d: Seq<u8>| base32_of(d) == raw@;
                            assert(base32_of(decoded@) == raw@);
                            assert(base32_of(d) == raw@);
                        }
                        Self::new_with_check(protocol, decoded.as_slice())
                    },
                    Err(_) => {
                        proof {
                            if exists|d: Seq<u8>| base32_of(d) == raw@ {
                                let d = choose|d: Seq<u8>| base32_of(d) == raw@;
                                assert(base32_of(d) == raw@);
                            }
                        }
                        Err(AddressError::Base32Decode)
                    },
                }
            },
        }
    }
}

} // verus!
