//! The calls into outside crates that the codec makes, each with the contract
//! that the crate's documentation and source give it.
use vstd::prelude::*;

verus! {

/// The little-endian base-128 encoding of an unsigned integer: seven bits per
/// byte, least significant group first, the high bit set on every byte but the
/// last.
pub open spec fn varint_spec(n: nat) -> Seq<u8>
    decreases n,
{
    if n < 128 {
        seq![n as u8]
    } else {
        seq![(n % 128 + 128) as u8] + varint_spec(n / 128)
    }
}

/// The BLAKE2b digest of `b` with an output of `len` bytes.
pub uninterp spec fn blake2b_of(b: Seq<u8>, len: nat) -> Seq<u8>;

/// The lower-case RFC 4648 base32 text of `b`, without padding.
pub uninterp spec fn base32_of(b: Seq<u8>) -> Seq<char>;

/// The base32 alphabet of the text form: RFC 4648 symbols in lower case.
pub const BASE32_SYMBOLS: &'static str = "abcdefghijklmnopqrstuvwxyz234567";

/// The decoding error of data_encoding, carried only until the codec maps it
/// to its own error.
#[verifier::external_type_specification]
#[verifier::external_body]
pub struct ExDecodeError(data_encoding::DecodeError);

/// Relies on unsigned_varint::encode::u64, which writes the low seven bits of
/// the number per byte with the continuation bit set until the rest is zero.
#[verifier::external_body]
pub(crate) fn varint_encode_u64(n: u64) -> (r: Vec<u8>)
    ensures
        r@ == varint_spec(n as nat),
{
    let mut buf = unsigned_varint::encode::u64_buffer();
    unsigned_varint::encode::u64(n, &mut buf).to_vec()
}

/// Relies on unsigned_varint::decode::u64: the encoding of a number decodes
/// back to that number (the rest of the input, here empty, is dropped).
#[verifier::external_body]
pub(crate) fn varint_decode_u64(buf: &[u8]) -> (r: Option<u64>)
    ensures
        forall|n: u64| #[trigger] varint_spec(n as nat) == buf@ ==> r == Some(n),
{
    match unsigned_varint::decode::u64(buf) {
        Ok((n, _rest)) => Some(n),
        Err(_) => None,
    }
}

/// Relies on blake2b_simd::Params::hash with `hash_length(len)`: a digest of
/// exactly `len` bytes that depends on the input and the length alone.
#[verifier::external_body]
pub(crate) fn blake2b(b: &[u8], len: usize) -> (r: Vec<u8>)
    requires
        1 <= len <= 64,
    ensures
        r@ == blake2b_of(b@, len as nat),
        r@.len() == len,
{
    blake2b_simd::Params::new().hash_length(len).hash(b).as_bytes().to_vec()
}

/// Relies on data_encoding::Encoding::encode for the specification with the
/// symbols `BASE32_SYMBOLS` and no padding: the text has `ceil(8 n / 5)`
/// characters, and since decoding reverses encoding, no other input has it.
/// It panics on inputs of more than `usize::MAX / 512` bytes. Building the
/// encoding does not fail: the 32 symbols are distinct ASCII characters.
#[verifier::external_body]
pub(crate) fn base32_encode(b: &[u8]) -> (r: String)
    requires
        b@.len() <= usize::MAX / 512,
    ensures
        r@ == base32_of(b@),
        r@.len() == (8 * b@.len() + 4) / 5,
        forall|x: Seq<u8>| #[trigger] base32_of(x) == r@ ==> x == b@,
{
    let mut layout = data_encoding::Specification::new();
    layout.symbols.push_str(BASE32_SYMBOLS);
    layout.encoding().unwrap().encode(b)
}

/// Relies on data_encoding::Encoding::decode for the same specification, which
/// is canonical: it accepts exactly the texts that encoding produces, and gives
/// back the input that produced them. It panics on inputs of more than
/// `usize::MAX / 8` bytes; a character takes at most four.
#[verifier::external_body]
pub(crate) fn base32_decode(s: &str) -> (r: Result<Vec<u8>, data_encoding::DecodeError>)
    requires
        s@.len() <= usize::MAX / 32,
    ensures
        r is Ok ==> base32_of(r->Ok_0@) == s@,
        forall|b: Seq<u8>| #[trigger] base32_of(b) == s@ ==> (r is Ok && r->Ok_0@ == b),
{
    let mut layout = data_encoding::Specification::new();
    layout.symbols.push_str(BASE32_SYMBOLS);
    layout.encoding().unwrap().decode(s.as_bytes())
}

} // verus!
