//! Plain records of chain data that travel beside addresses.
use vstd::prelude::*;

verus! {

/// Size and link count of a stored object.
#[derive(PartialEq, Eq, Structural, Clone, Copy, Debug)]
pub struct ObjStat {
    pub size: u64,
    pub links: u64,
}

/// A block ticket.
#[derive(Clone, PartialEq, Eq, PartialOrd, Ord, Debug, Hash)]
pub struct Ticket {
    /// VRF proof
    pub vrf_proof: Vec<u8>,
}

/// The PoSt election proof of space/time.
#[derive(Clone, PartialEq, Eq, PartialOrd, Ord, Debug, Hash)]
pub struct ElectionProof {
    /// VRF proof
    pub vrf_proof: Vec<u8>,
}

/// An entry of the randomness beacon.
#[derive(PartialEq, Eq, Debug, Clone, Hash)]
pub struct BeaconEntry {
    pub round: u64,
    pub data: Vec<u8>,
}

} // verus!
