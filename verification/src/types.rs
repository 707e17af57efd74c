//! The networks this pipeline can join, and their bootstrap entrypoints.

use vstd::prelude::*;

verus! {

/// Which ledger network to join.
#[derive(Clone, Copy, Debug, PartialEq, Eq, Structural)]
pub enum Network {
    Mainnet,
    Testnet,
}

impl Network {
    /// The network's well-known gossip entrypoints, in the order they are
    /// tried.
    pub fn entrypoints(&self) -> (r: Vec<&'static str>)
        ensures
            r@.len() == 3,
            *self is Mainnet ==> r@[0]@ == "entrypoint.mainnet-beta.solana.com:8001"@ && r@[1]@
                == "entrypoint2.mainnet-beta.solana.com:8001"@ && r@[2]@
                == "entrypoint3.mainnet-beta.solana.com:8001"@,
            *self is Testnet ==> r@[0]@ == "entrypoint.testnet.solana.com:8001"@ && r@[1]@
                == "entrypoint2.testnet.solana.com:8001"@ && r@[2]@
                == "entrypoint3.testnet.solana.com:8001"@,
    {
        let mut v: Vec<&'static str> = Vec::new();
        match self {
            Network::Mainnet => {
                v.push("entrypoint.mainnet-beta.solana.com:8001");
                v.push("entrypoint2.mainnet-beta.solana.com:8001");
                v.push("entrypoint3.mainnet-beta.solana.com:8001");
            },
            Network::Testnet => {
                v.push("entrypoint.testnet.solana.com:8001");
                v.push("entrypoint2.testnet.solana.com:8001");
                v.push("entrypoint3.testnet.solana.com:8001");
            },
        }
        v
    }
}

} // verus!
