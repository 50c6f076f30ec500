use vstd::prelude::*;

verus! {

/// The network whose prefix governs how addresses are written and read as text.
///
/// There is no hidden process-wide selector: every text encode or decode takes
/// the active network as an argument.
#[derive(PartialEq, Eq, Structural, Clone, Copy, Debug, Hash)]
pub enum Network {
    /// Main network, prefix `f`.
    Main,
    /// Test network, prefix `t`.
    Test,
}

/// The prefix character of a network.
pub open spec fn prefix_char(n: Network) -> char {
    match n {
        Network::Main => 'f',
        Network::Test => 't',
    }
}

/// The other one of the two networks.
pub open spec fn other_network(n: Network) -> Network {
    match n {
        Network::Main => Network::Test,
        Network::Test => Network::Main,
    }
}

impl Default for Network {
    /// The test network is active unless another is chosen.
    fn default() -> (r: Self)
        ensures
            r == Network::Test,
    {
        Network::Test
    }
}

impl Network {
    /// Return the prefix identifier of network.
    pub fn prefix(self) -> (r: &'static str)
        ensures
            r@ == seq![prefix_char(self)],
    {
        match self {
            Network::Main => {
                proof {
                    reveal_strlit("f");
                }
                "f"
            },
            Network::Test => {
                proof {
                    reveal_strlit("t");
                }
                "t"
            },
        }
    }

    /// The prefix as a character.
    pub fn prefix_char(self) -> (r: char)
        ensures
            r == prefix_char(self),
    {
        match self {
            Network::Main => 'f',
            Network::Test => 't',
        }
    }
}

} // verus!
