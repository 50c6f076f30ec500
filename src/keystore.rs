//! Key records of a key store.
use vstd::prelude::*;

verus! {

/// The type of a stored key.
#[derive(Clone, Debug, Hash)]
pub enum KeyType {
    /// secp256k1 key
    Secp256k1,
    /// bls key
    Bls,
    /// libp2p-host key
    Libp2pHost,
    /// jwt-hmac-secret key
    JwtHmacSecret,
    /// any other key, by its name
    Other(String),
}

/// The name under which a key type is written.
pub open spec fn key_type_name(k: KeyType) -> Seq<char> {
    match k {
        KeyType::Secp256k1 => "secp256k1"@,
        KeyType::Bls => "bls"@,
        KeyType::Libp2pHost => "libp2p-host"@,
        KeyType::JwtHmacSecret => "jwt-hmac-secret"@,
        KeyType::Other(s) => s@,
    }
}

/// Whether `name` is one of the names of the four known key types.
pub open spec fn is_known_key_name(name: Seq<char>) -> bool {
    name == "secp256k1"@ || name == "bls"@ || name == "libp2p-host"@ || name == "jwt-hmac-secret"@
}

/// Whether `k` is the key type that reading `name` gives: the known type of
/// that name, else `Other` holding the name.
pub open spec fn reads_as(name: Seq<char>, k: KeyType) -> bool {
    match k {
        KeyType::Other(s) => s@ == name && !is_known_key_name(name),
        _ => key_type_name(k) == name,
    }
}

/// Two key types are equal when they are the same variant, with equal names
/// for `Other`.
pub open spec fn key_type_eq(a: KeyType, b: KeyType) -> bool {
    match (a, b) {
        (KeyType::Secp256k1, KeyType::Secp256k1) => true,
        (KeyType::Bls, KeyType::Bls) => true,
        (KeyType::Libp2pHost, KeyType::Libp2pHost) => true,
        (KeyType::JwtHmacSecret, KeyType::JwtHmacSecret) => true,
        (KeyType::Other(x), KeyType::Other(y)) => x@ == y@,
        _ => false,
    }
}

impl PartialEq for KeyType {
    fn eq(&self, other: &KeyType) -> (r: bool) {
        match (self, other) {
            (KeyType::Secp256k1, KeyType::Secp256k1) => true,
            (KeyType::Bls, KeyType::Bls) => true,
            (KeyType::Libp2pHost, KeyType::Libp2pHost) => true,
            (KeyType::JwtHmacSecret, KeyType::JwtHmacSecret) => true,
            (KeyType::Other(x), KeyType::Other(y)) => x.eq(y),
            _ => false,
        }
    }
}

impl vstd::std_specs::cmp::PartialEqSpecImpl for KeyType {
    open spec fn obeys_eq_spec() -> bool {
        true
    }

    open spec fn eq_spec(&self, other: &KeyType) -> bool {
        key_type_eq(*self, *other)
    }
}

impl Eq for KeyType {}

impl KeyType {
    /// The name under which this key type is written.
    pub fn name(&self) -> (r: String)
        ensures
            r@ == key_type_name(*self),
    {
        match self {
            KeyType::Secp256k1 => String::from_str("secp256k1"),
            KeyType::Bls => String::from_str("bls"),
            KeyType::Libp2pHost => String::from_str("libp2p-host"),
            KeyType::JwtHmacSecret => String::from_str("jwt-hmac-secret"),
            KeyType::Other(s) => s.clone(),
        }
    }

    /// Read a key type from its name; an unknown name is kept as `Other`.
    pub fn from_name(name: String) -> (r: KeyType)
        ensures
            reads_as(name@, r),
    {
        if name == String::from_str("secp256k1") {
            KeyType::Secp256k1
        } else if name == String::from_str("bls") {
            KeyType::Bls
        } else if name == String::from_str("libp2p-host") {
            KeyType::Libp2pHost
        } else if name == String::from_str("jwt-hmac-secret") {
            KeyType::JwtHmacSecret
        } else {
            KeyType::Other(name)
        }
    }
}

/// Reading a key type's name gives that key type back, unless it is an
/// `Other` whose name is one of the known ones.
pub proof fn lemma_key_name_round_trip(k: KeyType, r: KeyType)
    requires
        reads_as(key_type_name(k), r),
        !(k is Other && is_known_key_name(key_type_name(k))),
    ensures
        key_type_eq(k, r),
{
    reveal_strlit("secp256k1");
    reveal_strlit("bls");
    reveal_strlit("libp2p-host");
    reveal_strlit("jwt-hmac-secret");
    assert("secp256k1"@.len() == 9);
    assert("bls"@.len() == 3);
    assert("libp2p-host"@.len() == 11);
    assert("jwt-hmac-secret"@.len() == 15);
}

/// A key kept in a key store.
#[derive(PartialEq, Clone, Debug)]
pub struct KeyInfo {
    /// The key type.
    pub key_type: KeyType,
    /// The private key of that type.
    pub private_key: Vec<u8>,
}

} // verus!
