//! Signature kinds and signatures.
use vstd::prelude::*;

verus! {

/// Errors of the signature types.
#[derive(PartialEq, Eq, Structural, Clone, Copy, Debug, Hash)]
pub enum CryptoError {
    /// The byte names no known signature type.
    UnknownSignatureType(u8),
}

/// The kind of a signature.
#[derive(PartialEq, Eq, Structural, Clone, Copy, Debug, Hash)]
pub enum SignatureType {
    /// The `Secp256k1` signature, byte 1.
    Secp256k1,
    /// The `BLS` signature, byte 2.
    Bls,
}

/// The byte of a signature type.
pub open spec fn signature_type_byte(t: SignatureType) -> u8 {
    match t {
        SignatureType::Secp256k1 => 1,
        SignatureType::Bls => 2,
    }
}

/// The signature type named by a byte.
pub open spec fn signature_type_of(v: u8) -> Result<SignatureType, CryptoError> {
    if v == 1 {
        Ok(SignatureType::Secp256k1)
    } else if v == 2 {
        Ok(SignatureType::Bls)
    } else {
        Err(CryptoError::UnknownSignatureType(v))
    }
}

impl Default for SignatureType {
    fn default() -> (r: Self)
        ensures
            r == SignatureType::Bls,
    {
        SignatureType::Bls
    }
}

impl TryFrom<u8> for SignatureType {
    type Error = CryptoError;

    fn try_from(value: u8) -> (r: Result<Self, CryptoError>) {
        match value {
            1 => Ok(SignatureType::Secp256k1),
            2 => Ok(SignatureType::Bls),
            _ => Err(CryptoError::UnknownSignatureType(value)),
        }
    }
}

impl vstd::std_specs::convert::TryFromSpecImpl<u8> for SignatureType {
    open spec fn obeys_try_from_spec() -> bool {
        true
    }

    open spec fn try_from_spec(v: u8) -> Result<Self, CryptoError> {
        signature_type_of(v)
    }
}

impl From<SignatureType> for u8 {
    fn from(ty: SignatureType) -> (r: u8) {
        match ty {
            SignatureType::Secp256k1 => 1,
            SignatureType::Bls => 2,
        }
    }
}

impl vstd::std_specs::convert::FromSpecImpl<SignatureType> for u8 {
    open spec fn obeys_from_spec() -> bool {
        true
    }

    open spec fn from_spec(v: SignatureType) -> u8 {
        signature_type_byte(v)
    }
}

/// A signature type survives the trip through its byte.
pub proof fn lemma_signature_type_byte(t: SignatureType)
    ensures
        signature_type_of(signature_type_byte(t)) == Ok::<SignatureType, CryptoError>(t),
{
}

/// The general signature structure.
#[derive(PartialEq, Eq, Clone, Debug, Hash)]
pub struct Signature {
    /// The signature type.
    pub sig_type: SignatureType,
    /// The signature bytes: 64 bytes and a recovery id for secp256k1, 96
    /// bytes for BLS.
    pub data: Vec<u8>,
}

} // verus!
