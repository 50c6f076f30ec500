//! Filecoin-style addresses: a self-describing identifier with a compact binary
//! form and a checksum-protected text form, together with the plain record types
//! that travel beside addresses in chain data.
//!
//! The network whose prefix governs the text form is passed explicitly to every
//! text encode and decode.

pub mod network;
pub mod protocol;
pub mod primitives;
pub mod decimal;
pub mod address;
pub mod laws;
pub mod crypto;
pub mod keystore;
pub mod records;

pub use address::{Address, AddressError};
pub use crypto::{CryptoError, Signature, SignatureType};
pub use keystore::{KeyInfo, KeyType};
pub use network::Network;
pub use protocol::Protocol;
pub use records::{BeaconEntry, ElectionProof, ObjStat, Ticket};
