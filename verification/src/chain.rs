//! The table of fork endpoints, by chain identifier.

use crate::model::SimulationError;
use vstd::prelude::*;
use vstd::string::StringExecFns;

verus! {

/// One row of the endpoint table.
pub ghost struct Endpoint {
    /// The URL, or the part of it that stands before the credential.
    pub base: Seq<char>,
    /// Whether the provider credential is appended to `base`.
    pub credentialed: bool,
}

/// The endpoint table: the row of each known chain.
pub open spec fn endpoint(chain_id: u64) -> Option<Endpoint> {
    if chain_id == 1 {
        Some(Endpoint { base: "https://eth-mainnet.g.alchemy.com/v2/"@, credentialed: true })
    } else if chain_id == 5 {
        Some(Endpoint { base: "https://eth-goerli.g.alchemy.com/v2/"@, credentialed: true })
    } else if chain_id == 137 {
        Some(Endpoint { base: "https://polygon-mainnet.g.alchemy.com/v2/"@, credentialed: true })
    } else if chain_id == 80001 {
        Some(Endpoint { base: "https://polygon-mumbai.g.alchemy.com/v2/"@, credentialed: true })
    } else if chain_id == 43114 {
        Some(Endpoint { base: "https://api.avax.network/ext/bc/C/rpc"@, credentialed: false })
    } else if chain_id == 43113 {
        Some(Endpoint { base: "https://api.avax-test.network/ext/bc/C/rpc"@, credentialed: false })
    } else if chain_id == 250 {
        Some(Endpoint { base: "https://rpcapi.fantom.network/"@, credentialed: false })
    } else if chain_id == 4002 {
        Some(Endpoint { base: "https://rpc.testnet.fantom.network/"@, credentialed: false })
    } else if chain_id == 100 {
        Some(Endpoint { base: "https://rpc.xdaichain.com/"@, credentialed: false })
    } else if chain_id == 56 {
        Some(Endpoint { base: "https://bsc-dataseed.binance.org/"@, credentialed: false })
    } else if chain_id == 97 {
        Some(
            Endpoint {
                base: "https://data-seed-prebsc-1-s1.binance.org:8545/"@,
                credentialed: false,
            },
        )
    } else if chain_id == 42161 {
        Some(Endpoint { base: "https://arb1.arbitrum.io/rpc"@, credentialed: false })
    } else if chain_id == 421613 {
        Some(Endpoint { base: "https://goerli-rollup.arbitrum.io/rpc"@, credentialed: false })
    } else if chain_id == 10 {
        Some(Endpoint { base: "https://mainnet.optimism.io/"@, credentialed: false })
    } else if chain_id == 420 {
        Some(Endpoint { base: "https://goerli.optimism.io/"@, credentialed: false })
    } else {
        None
    }
}

/// The chains that the table knows.
pub open spec fn is_supported_chain(chain_id: u64) -> bool {
    chain_id == 1 || chain_id == 5 || chain_id == 137 || chain_id == 80001 || chain_id == 43114
        || chain_id == 43113 || chain_id == 250 || chain_id == 4002 || chain_id == 100 || chain_id
        == 56 || chain_id == 97 || chain_id == 42161 || chain_id == 421613 || chain_id == 10
        || chain_id == 420
}

/// The fork URL of a chain under a provider credential, where the chain is known.
pub open spec fn fork_url(chain_id: u64, key: Seq<char>) -> Option<Seq<char>> {
    match endpoint(chain_id) {
        Some(e) => Some(
            if e.credentialed {
                e.base + key
            } else {
                e.base
            },
        ),
        None => None,
    }
}

/// Looks a chain up in the endpoint table.
fn lookup_endpoint(chain_id: u64) -> (r: Option<(&'static str, bool)>)
    ensures
        match endpoint(chain_id) {
            Some(e) => r is Some && r->Some_0.0@ == e.base && r->Some_0.1 == e.credentialed,
            None => r is None,
        },
{
    if chain_id == 1 {
        Some(("https://eth-mainnet.g.alchemy.com/v2/", true))
    } else if chain_id == 5 {
        Some(("https://eth-goerli.g.alchemy.com/v2/", true))
    } else if chain_id == 137 {
        Some(("https://polygon-mainnet.g.alchemy.com/v2/", true))
    } else if chain_id == 80001 {
        Some(("https://polygon-mumbai.g.alchemy.com/v2/", true))
    } else if chain_id == 43114 {
        Some(("https://api.avax.network/ext/bc/C/rpc", false))
    } else if chain_id == 43113 {
        Some(("https://api.avax-test.network/ext/bc/C/rpc", false))
    } else if chain_id == 250 {
        Some(("https://rpcapi.fantom.network/", false))
    } else if chain_id == 4002 {
        Some(("https://rpc.testnet.fantom.network/", false))
    } else if chain_id == 100 {
        Some(("https://rpc.xdaichain.com/", false))
    } else if chain_id == 56 {
        Some(("https://bsc-dataseed.binance.org/", false))
    } else if chain_id == 97 {
        Some(("https://data-seed-prebsc-1-s1.binance.org:8545/", false))
    } else if chain_id == 42161 {
        Some(("https://arb1.arbitrum.io/rpc", false))
    } else if chain_id == 421613 {
        Some(("https://goerli-rollup.arbitrum.io/rpc", false))
    } else if chain_id == 10 {
        Some(("https://mainnet.optimism.io/", false))
    } else if chain_id == 420 {
        Some(("https://goerli.optimism.io/", false))
    } else {
        None
    }
}

/// Resolves a chain identifier to the URL to fork from.
///
/// Known chains give their endpoint, with the credential appended where the
/// provider asks for one; every other identifier is rejected.
pub fn chain_id_to_fork_url(chain_id: u64, alchemy_key: String) -> (r: Result<
    String,
    SimulationError,
>)
    ensures
        match fork_url(chain_id, alchemy_key@) {
            Some(url) => r is Ok && r->Ok_0@ == url,
            None => r == Err::<String, SimulationError>(SimulationError::UnsupportedChain),
        },
{
    match lookup_endpoint(chain_id) {
        Some((base, credentialed)) => {
            let url = String::from_str(base);
            if credentialed {
                Ok(url.concat(alchemy_key.as_str()))
            } else {
                Ok(url)
            }
        },
        None => Err(SimulationError::UnsupportedChain),
    }
}

/// Every known chain resolves to a URL that is not empty, whatever the
/// credential; every other chain resolves to nothing.
pub proof fn lemma_fork_url_total(chain_id: u64, key: Seq<char>)
    ensures
        is_supported_chain(chain_id) <==> fork_url(chain_id, key) is Some,
        fork_url(chain_id, key) matches Some(url) ==> url.len() > 0,
{
    reveal_strlit("https://eth-mainnet.g.alchemy.com/v2/");
    reveal_strlit("https://eth-goerli.g.alchemy.com/v2/");
    reveal_strlit("https://polygon-mainnet.g.alchemy.com/v2/");
    reveal_strlit("https://polygon-mumbai.g.alchemy.com/v2/");
    reveal_strlit("https://api.avax.network/ext/bc/C/rpc");
    reveal_strlit("https://api.avax-test.network/ext/bc/C/rpc");
    reveal_strlit("https://rpcapi.fantom.network/");
    reveal_strlit("https://rpc.testnet.fantom.network/");
    reveal_strlit("https://rpc.xdaichain.com/");
    reveal_strlit("https://bsc-dataseed.binance.org/");
    reveal_strlit("https://data-seed-prebsc-1-s1.binance.org:8545/");
    reveal_strlit("https://arb1.arbitrum.io/rpc");
    reveal_strlit("https://goerli-rollup.arbitrum.io/rpc");
    reveal_strlit("https://mainnet.optimism.io/");
    reveal_strlit("https://goerli.optimism.io/");
}

} // verus!
