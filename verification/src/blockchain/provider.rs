//! Chain configuration by network name.
use vstd::prelude::*;
use crate::blockchain::networks::{network_named, Network};
use crate::text::{lowercase, owned, same_text, to_lowercase};

verus! {

/// Configuration of a chain.
#[derive(Debug, Clone)]
pub struct ChainConfig {
    pub rpc_url: String,
    pub chain_id: u64,
    pub name: String,
    pub explorer_url: String,
}

/// The network whose configuration a lowercase name selects: Ethereum mainnet
/// for any name it does not know.
pub open spec fn config_network(t: Seq<char>) -> Network {
    if t == "ethereum"@ || t == "mainnet"@ {
        Network::EthereumMainnet
    } else if t == "sepolia"@ {
        Network::EthereumSepolia
    } else if t == "base"@ || t == "base-mainnet"@ {
        Network::BaseMainnet
    } else if t == "base-sepolia"@ {
        Network::BaseSepolia
    } else if t == "arbitrum"@ || t == "arbitrum-mainnet"@ {
        Network::ArbitrumMainnet
    } else if t == "arbitrum-sepolia"@ {
        Network::ArbitrumSepolia
    } else {
        Network::EthereumMainnet
    }
}

/// The display name of a network's chain.
pub open spec fn chain_name_text(n: Network) -> Seq<char> {
    match n {
        Network::EthereumMainnet => "Ethereum Mainnet"@,
        Network::EthereumSepolia => "Sepolia Testnet"@,
        Network::BaseMainnet => "Base Mainnet"@,
        Network::BaseSepolia => "Base Sepolia"@,
        Network::ArbitrumMainnet => "Arbitrum One"@,
        Network::ArbitrumSepolia => "Arbitrum Sepolia"@,
    }
}

/// The network whose configuration a name selects, ignoring case.
pub fn config_network_of(network: &str) -> (r: Network)
    ensures
        r == config_network(lowercase(network@)),
{
    let t = to_lowercase(network);
    if same_text(&t, "ethereum") || same_text(&t, "mainnet") {
        Network::EthereumMainnet
    } else if same_text(&t, "sepolia") {
        Network::EthereumSepolia
    } else if same_text(&t, "base") || same_text(&t, "base-mainnet") {
        Network::BaseMainnet
    } else if same_text(&t, "base-sepolia") {
        Network::BaseSepolia
    } else if same_text(&t, "arbitrum") || same_text(&t, "arbitrum-mainnet") {
        Network::ArbitrumMainnet
    } else if same_text(&t, "arbitrum-sepolia") {
        Network::ArbitrumSepolia
    } else {
        Network::EthereumMainnet
    }
}

/// The environment variable whose value overrides the RPC URL of the chain a
/// name selects.
pub fn chain_config_rpc_var(network: &str) -> (r: &'static str)
    ensures
        r@ == config_network(lowercase(network@)).rpc_var_text(),
{
    config_network_of(network).rpc_env_var()
}

/// The configuration of the chain a name selects; `rpc_override` is the value
/// of the variable named by `chain_config_rpc_var`, when set.
pub fn get_chain_config(network: &str, rpc_override: Option<String>) -> (r: ChainConfig)
    ensures
        ({
            let n = config_network(lowercase(network@));
            &&& r.chain_id == n.spec_chain_id()
            &&& r.name@ == chain_name_text(n)
            &&& r.explorer_url@ == n.explorer_text()
            &&& r.rpc_url@ == match rpc_override {
                Some(v) => v@,
                None => n.default_rpc_text(),
            }
        }),
{
    let n = config_network_of(network);
    let name = match n {
        Network::EthereumMainnet => owned("Ethereum Mainnet"),
        Network::EthereumSepolia => owned("Sepolia Testnet"),
        Network::BaseMainnet => owned("Base Mainnet"),
        Network::BaseSepolia => owned("Base Sepolia"),
        Network::ArbitrumMainnet => owned("Arbitrum One"),
        Network::ArbitrumSepolia => owned("Arbitrum Sepolia"),
    };
    ChainConfig {
        rpc_url: n.rpc_url(rpc_override),
        chain_id: n.chain_id(),
        name,
        explorer_url: owned(n.explorer()),
    }
}

/// The chain configuration a name selects is that of the network the same name
/// parses to, for every name that parses, except `ethereum-sepolia`: network
/// parsing reads it as Sepolia while the configuration falls back to mainnet.
pub proof fn law_config_matches_network(t: Seq<char>)
    requires
        network_named(t) is Some,
        t != "ethereum-sepolia"@,
    ensures
        config_network(t) == network_named(t)->0,
{
    reveal_strlit("ethereum");
    reveal_strlit("mainnet");
    reveal_strlit("ethereum-mainnet");
    reveal_strlit("sepolia");
    reveal_strlit("base");
    reveal_strlit("base-mainnet");
    reveal_strlit("base-sepolia");
    reveal_strlit("arbitrum");
    reveal_strlit("arbitrum-mainnet");
    reveal_strlit("arbitrum-sepolia");
    if t == "ethereum-mainnet"@ {
        assert(t.len() == 16);
        assert(t != "ethereum"@ && t != "mainnet"@ && t != "sepolia"@ && t != "base"@);
        assert(t != "base-mainnet"@) by {
            assert(t[0] != "base-mainnet"@[0]);
        }
        assert(t != "base-sepolia"@) by {
            assert(t[0] != "base-sepolia"@[0]);
        }
        assert(t != "arbitrum"@);
        assert(t != "arbitrum-mainnet"@) by {
            assert(t[0] != "arbitrum-mainnet"@[0]);
        }
        assert(t != "arbitrum-sepolia"@) by {
            assert(t[0] != "arbitrum-sepolia"@[0]);
        }
    }
}

} // verus!
