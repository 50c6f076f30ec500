use vstd::prelude::*;

verus! {

/// Length of the hash digest carried by `Secp256k1` and `Actor` addresses.
pub const PAYLOAD_HASH_LEN: usize = 20;

/// Length of a BLS public key, the payload of a `Bls` address.
pub const BLS_PUBLIC_KEY_LEN: usize = 48;

/// Length of the checksum appended to the text form of non-`Id` addresses.
pub const CHECKSUM_HASH_LEN: usize = 4;

/// Accepted lengths of a secp256k1 public key: full, raw and compressed.
pub const SECP256K1_FULL_PUBLIC_KEY_LEN: usize = 65;
pub const SECP256K1_RAW_PUBLIC_KEY_LEN: usize = 64;
pub const SECP256K1_COMPRESSED_PUBLIC_KEY_LEN: usize = 33;

/// Address protocol: decides the shape and the meaning of the payload.
#[derive(PartialEq, Eq, Structural, Clone, Copy, Debug, Hash)]
pub enum Protocol {
    /// `ID` protocol, identifier 0.
    Id,
    /// `Secp256k1` protocol, identifier 1.
    Secp256k1,
    /// `Actor` protocol, identifier 2.
    Actor,
    /// `BLS` protocol, identifier 3.
    Bls,
}

/// The numeric tag of a protocol, which is also its byte in the binary form.
pub open spec fn protocol_tag(p: Protocol) -> u8 {
    match p {
        Protocol::Id => 0,
        Protocol::Secp256k1 => 1,
        Protocol::Actor => 2,
        Protocol::Bls => 3,
    }
}

/// The protocol with a given tag, if the tag is one of the four.
pub open spec fn protocol_of_tag(b: u8) -> Option<Protocol> {
    if b == 0 {
        Some(Protocol::Id)
    } else if b == 1 {
        Some(Protocol::Secp256k1)
    } else if b == 2 {
        Some(Protocol::Actor)
    } else if b == 3 {
        Some(Protocol::Bls)
    } else {
        None
    }
}

/// The protocol written as a digit in the text form.
pub open spec fn protocol_of_digit(c: char) -> Option<Protocol> {
    if c == '0' {
        Some(Protocol::Id)
    } else if c == '1' {
        Some(Protocol::Secp256k1)
    } else if c == '2' {
        Some(Protocol::Actor)
    } else if c == '3' {
        Some(Protocol::Bls)
    } else {
        None
    }
}

/// The digit of a protocol in the text form.
pub open spec fn protocol_digit(p: Protocol) -> char {
    match p {
        Protocol::Id => '0',
        Protocol::Secp256k1 => '1',
        Protocol::Actor => '2',
        Protocol::Bls => '3',
    }
}

/// The fixed payload length of a hashed or key-carrying protocol.
pub open spec fn fixed_payload_len(p: Protocol) -> nat {
    match p {
        Protocol::Bls => BLS_PUBLIC_KEY_LEN as nat,
        _ => PAYLOAD_HASH_LEN as nat,
    }
}

impl Protocol {
    /// Read a protocol from its tag byte.
    pub fn from_byte(b: u8) -> (r: Option<Protocol>)
        ensures
            r == protocol_of_tag(b),
    {
        match b {
            0 => Some(Protocol::Id),
            1 => Some(Protocol::Secp256k1),
            2 => Some(Protocol::Actor),
            3 => Some(Protocol::Bls),
            _ => None,
        }
    }

    /// The tag byte of this protocol.
    pub fn as_byte(self) -> (r: u8)
        ensures
            r == protocol_tag(self),
    {
        match self {
            Protocol::Id => 0,
            Protocol::Secp256k1 => 1,
            Protocol::Actor => 2,
            Protocol::Bls => 3,
        }
    }

    /// Read a protocol from its digit in the text form.
    pub fn from_digit(c: char) -> (r: Option<Protocol>)
        ensures
            r == protocol_of_digit(c),
    {
        match c {
            '0' => Some(Protocol::Id),
            '1' => Some(Protocol::Secp256k1),
            '2' => Some(Protocol::Actor),
            '3' => Some(Protocol::Bls),
            _ => None,
        }
    }

    /// The digit of this protocol in the text form, as a string.
    pub fn digit_str(self) -> (r: &'static str)
        ensures
            r@ == seq![protocol_digit(self)],
    {
        match self {
            Protocol::Id => {
                proof { reveal_strlit("0"); }
                "0"
            },
            Protocol::Secp256k1 => {
                proof { reveal_strlit("1"); }
                "1"
            },
            Protocol::Actor => {
                proof { reveal_strlit("2"); }
                "2"
            },
            Protocol::Bls => {
                proof { reveal_strlit("3"); }
                "3"
            },
        }
    }

    /// The digit of this protocol in the text form.
    pub fn digit(self) -> (r: char)
        ensures
            r == protocol_digit(self),
    {
        match self {
            Protocol::Id => '0',
            Protocol::Secp256k1 => '1',
            Protocol::Actor => '2',
            Protocol::Bls => '3',
        }
    }
}

/// Protocols decode their own tag, and their own digit.
pub proof fn lemma_protocol_tags(p: Protocol)
    ensures
        protocol_of_tag(protocol_tag(p)) == Some(p),
        protocol_of_digit(protocol_digit(p)) == Some(p),
{
}

} // verus!
