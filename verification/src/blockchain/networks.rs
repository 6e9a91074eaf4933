//! Supported Ethereum networks and their configuration.
use vstd::prelude::*;
use crate::text::{
    all_ascii, ascii_lower, ascii_lower_text, has_prefix, lowercase, owned, push_str, same_text,
    to_lowercase,
};

verus! {

/// A supported Ethereum network.
#[derive(Debug, Clone, Copy, PartialEq, Eq, Structural)]
pub enum Network {
    EthereumMainnet,
    EthereumSepolia,
    BaseMainnet,
    BaseSepolia,
    ArbitrumMainnet,
    ArbitrumSepolia,
}

/// A 20-byte Ethereum address.
#[derive(Debug, Clone, Copy, PartialEq, Eq)]
pub struct Address(pub [u8; 20]);

impl Address {
    /// The all-zero address.
    pub fn zero() -> (r: Address)
        ensures
            r.0@ == Seq::new(20, |i: int| 0u8),
    {
        let r = Address([0u8; 20]);
        assert(r.0@ =~= Seq::new(20, |i: int| 0u8));
        r
    }
}

/// An ASCII hexadecimal digit.
pub open spec fn is_hex_digit(c: char) -> bool {
    ('0' <= c && c <= '9') || ('a' <= c && c <= 'f') || ('A' <= c && c <= 'F')
}

/// The characters that hex decoding skips: space, carriage return, line feed, tab.
pub open spec fn is_hex_skip(c: char) -> bool {
    c == ' ' || c == '\r' || c == '\n' || c == '\t'
}

/// The value of a hexadecimal digit.
pub open spec fn hex_value(c: char) -> nat {
    if '0' <= c && c <= '9' {
        (c as u32 - 48) as nat
    } else if 'a' <= c && c <= 'f' {
        (c as u32 - 87) as nat
    } else {
        (c as u32 - 55) as nat
    }
}

/// The address that a text stands for, as `Address::from_str` reads it: an
/// optional `0x` prefix, then exactly 40 hex digits, among which spaces, tabs
/// and line breaks are skipped; `None` for anything else.
pub open spec fn address_from_text(s: Seq<char>) -> Option<Seq<u8>> {
    let body = if has_prefix(s, "0x"@) {
        s.skip(2)
    } else {
        s
    };
    let digits = body.filter(|c: char| is_hex_digit(c));
    if (forall|i: int| 0 <= i < body.len() ==> is_hex_digit(#[trigger] body[i]) || is_hex_skip(
        body[i],
    )) && digits.len() == 40 {
        Some(
            Seq::new(
                20,
                |i: int| (hex_value(digits[2 * i]) * 16 + hex_value(digits[2 * i + 1])) as u8,
            ),
        )
    } else {
        None
    }
}

/// The text of the error `Address::from_str` gives for a text that is no
/// address (the `Display` of `rustc_hex::FromHexError`).
pub uninterp spec fn address_error_text(s: Seq<char>) -> Seq<char>;

/// `Address::from_str` (ethers-core's `H160`): the bytes of the address that
/// the text stands for, or the text of the error.
#[verifier::external_body]
fn parse_h160(s: &str) -> (r: Result<[u8; 20], String>)
    ensures
        match r {
            Ok(b) => address_from_text(s@) == Some(b@),
            Err(m) => address_from_text(s@) is None && m@ == address_error_text(s@),
        },
{
    match <ethers_core::types::Address as std::str::FromStr>::from_str(s) {
        Ok(a) => Ok(a.0),
        Err(e) => Err(e.to_string()),
    }
}

/// The address a text stands for, or the zero address when it stands for none.
pub open spec fn address_or_zero(s: Seq<char>) -> Seq<u8> {
    match address_from_text(s) {
        Some(b) => b,
        None => Seq::new(20, |i: int| 0u8),
    }
}

/// Parses an address, giving the zero address when the text is not one.
pub fn parse_address_or_zero(s: &str) -> (r: Address)
    ensures
        r.0@ == address_or_zero(s@),
{
    match parse_h160(s) {
        Ok(b) => Address(b),
        Err(_) => Address::zero(),
    }
}

/// Parses a transfer destination: the address, or the text of the parse error.
pub fn parse_destination(destination: &str) -> (r: Result<Address, String>)
    ensures
        match r {
            Ok(a) => address_from_text(destination@) == Some(a.0@),
            Err(m) => address_from_text(destination@) is None && m@ == address_error_text(
                destination@,
            ),
        },
{
    match parse_h160(destination) {
        Ok(b) => Ok(Address(b)),
        Err(m) => Err(m),
    }
}

/// The network a lowercase name stands for.
pub open spec fn network_named(t: Seq<char>) -> Option<Network> {
    if t == "ethereum"@ || t == "mainnet"@ || t == "ethereum-mainnet"@ {
        Some(Network::EthereumMainnet)
    } else if t == "sepolia"@ || t == "ethereum-sepolia"@ {
        Some(Network::EthereumSepolia)
    } else if t == "base"@ || t == "base-mainnet"@ {
        Some(Network::BaseMainnet)
    } else if t == "base-sepolia"@ {
        Some(Network::BaseSepolia)
    } else if t == "arbitrum"@ || t == "arbitrum-mainnet"@ {
        Some(Network::ArbitrumMainnet)
    } else if t == "arbitrum-sepolia"@ {
        Some(Network::ArbitrumSepolia)
    } else {
        None
    }
}

impl Network {
    /// The chain ID.
    pub open spec fn spec_chain_id(self) -> u64 {
        match self {
            Network::EthereumMainnet => 1,
            Network::EthereumSepolia => 11155111,
            Network::BaseMainnet => 8453,
            Network::BaseSepolia => 84532,
            Network::ArbitrumMainnet => 42161,
            Network::ArbitrumSepolia => 421614,
        }
    }

    /// The block explorer URL.
    pub open spec fn explorer_text(self) -> Seq<char> {
        match self {
            Network::EthereumMainnet => "https://etherscan.io"@,
            Network::EthereumSepolia => "https://sepolia.etherscan.io"@,
            Network::BaseMainnet => "https://basescan.org"@,
            Network::BaseSepolia => "https://sepolia.basescan.org"@,
            Network::ArbitrumMainnet => "https://arbiscan.io"@,
            Network::ArbitrumSepolia => "https://sepolia.arbiscan.io"@,
        }
    }

    /// The environment variable that overrides the RPC URL.
    pub open spec fn rpc_var_text(self) -> Seq<char> {
        match self {
            Network::EthereumMainnet => "ETH_RPC_URL"@,
            Network::EthereumSepolia => "SEPOLIA_RPC_URL"@,
            Network::BaseMainnet => "BASE_RPC_URL"@,
            Network::BaseSepolia => "BASE_SEPOLIA_RPC_URL"@,
            Network::ArbitrumMainnet => "ARBITRUM_RPC_URL"@,
            Network::ArbitrumSepolia => "ARBITRUM_SEPOLIA_RPC_URL"@,
        }
    }

    /// The RPC URL used when none is configured.
    pub open spec fn default_rpc_text(self) -> Seq<char> {
        match self {
            Network::EthereumMainnet => "https://eth-mainnet.g.alchemy.com/v2/demo"@,
            Network::EthereumSepolia => "https://eth-sepolia.g.alchemy.com/v2/demo"@,
            Network::BaseMainnet => "https://mainnet.base.org"@,
            Network::BaseSepolia => "https://sepolia.base.org"@,
            Network::ArbitrumMainnet => "https://arb1.arbitrum.io/rpc"@,
            Network::ArbitrumSepolia => "https://sepolia-rollup.arbitrum.io/rpc"@,
        }
    }

    /// The environment variable that overrides the USDT contract.
    pub open spec fn usdt_var_text(self) -> Seq<char> {
        match self {
            Network::EthereumMainnet => "USDT_CONTRACT"@,
            Network::EthereumSepolia => "SEPOLIA_USDT_CONTRACT"@,
            Network::BaseMainnet => "BASE_USDT_CONTRACT"@,
            Network::BaseSepolia => "BASE_SEPOLIA_USDT_CONTRACT"@,
            Network::ArbitrumMainnet => "ARBITRUM_USDT_CONTRACT"@,
            Network::ArbitrumSepolia => "ARBITRUM_SEPOLIA_USDT_CONTRACT"@,
        }
    }

    /// The USDT contract used when none is configured.
    pub open spec fn default_usdt_text(self) -> Seq<char> {
        match self {
            Network::EthereumMainnet => "0xdAC17F958D2ee523a2206206994597C13D831ec7"@,
            Network::ArbitrumMainnet => "0xFd086bC7CD5C481DCC9C85ebE478A1C0b69FCbb9"@,
            _ => "0x0000000000000000000000000000000000000000"@,
        }
    }

    /// The environment variable that overrides the USDC contract.
    pub open spec fn usdc_var_text(self) -> Seq<char> {
        match self {
            Network::EthereumMainnet => "USDC_CONTRACT"@,
            Network::EthereumSepolia => "SEPOLIA_USDC_CONTRACT"@,
            Network::BaseMainnet => "BASE_USDC_CONTRACT"@,
            Network::BaseSepolia => "BASE_SEPOLIA_USDC_CONTRACT"@,
            Network::ArbitrumMainnet => "ARBITRUM_USDC_CONTRACT"@,
            Network::ArbitrumSepolia => "ARBITRUM_SEPOLIA_USDC_CONTRACT"@,
        }
    }

    /// The USDC contract used when none is configured.
    pub open spec fn default_usdc_text(self) -> Seq<char> {
        match self {
            Network::EthereumMainnet => "0xA0b86991c6218b36c1d19D4a2e9Eb0cE3606eB48"@,
            Network::EthereumSepolia => "0x1c7D4B196Cb0C7B01d743Fbc6116a902379C7238"@,
            Network::BaseMainnet => "0x833589fCD6eDb6E08f4c7C32D4f71b54bdA02913"@,
            Network::BaseSepolia => "0x036CbD53842c5426634e7929541eC2318f3dCF7e"@,
            Network::ArbitrumMainnet => "0xaf88d065e77c8cC2239327C5EDb3A432268e5831"@,
            Network::ArbitrumSepolia => "0x75faf114eafb1BDbe2F0316DF893fd58CE46AA4d"@,
        }
    }

    /// The chain ID of this network.
    pub fn chain_id(&self) -> (r: u64)
        ensures
            r == self.spec_chain_id(),
    {
        match self {
            Network::EthereumMainnet => 1,
            Network::EthereumSepolia => 11155111,
            Network::BaseMainnet => 8453,
            Network::BaseSepolia => 84532,
            Network::ArbitrumMainnet => 42161,
            Network::ArbitrumSepolia => 421614,
        }
    }

    /// The block explorer URL of this network.
    pub fn explorer(&self) -> (r: &'static str)
        ensures
            r@ == self.explorer_text(),
    {
        match self {
            Network::EthereumMainnet => "https://etherscan.io",
            Network::EthereumSepolia => "https://sepolia.etherscan.io",
            Network::BaseMainnet => "https://basescan.org",
            Network::BaseSepolia => "https://sepolia.basescan.org",
            Network::ArbitrumMainnet => "https://arbiscan.io",
            Network::ArbitrumSepolia => "https://sepolia.arbiscan.io",
        }
    }

    /// The environment variable that overrides this network's RPC URL.
    pub fn rpc_env_var(&self) -> (r: &'static str)
        ensures
            r@ == self.rpc_var_text(),
    {
        match self {
            Network::EthereumMainnet => "ETH_RPC_URL",
            Network::EthereumSepolia => "SEPOLIA_RPC_URL",
            Network::BaseMainnet => "BASE_RPC_URL",
            Network::BaseSepolia => "BASE_SEPOLIA_RPC_URL",
            Network::ArbitrumMainnet => "ARBITRUM_RPC_URL",
            Network::ArbitrumSepolia => "ARBITRUM_SEPOLIA_RPC_URL",
        }
    }

    /// The RPC URL used when none is configured.
    pub fn default_rpc_url(&self) -> (r: &'static str)
        ensures
            r@ == self.default_rpc_text(),
    {
        match self {
            Network::EthereumMainnet => "https://eth-mainnet.g.alchemy.com/v2/demo",
            Network::EthereumSepolia => "https://eth-sepolia.g.alchemy.com/v2/demo",
            Network::BaseMainnet => "https://mainnet.base.org",
            Network::BaseSepolia => "https://sepolia.base.org",
            Network::ArbitrumMainnet => "https://arb1.arbitrum.io/rpc",
            Network::ArbitrumSepolia => "https://sepolia-rollup.arbitrum.io/rpc",
        }
    }

    /// The RPC URL of this network: the configured one (the value of the
    /// variable named by `rpc_env_var`, when set) or the default.
    pub fn rpc_url(&self, configured: Option<String>) -> (r: String)
        ensures
            r@ == match configured {
                Some(v) => v@,
                None => self.default_rpc_text(),
            },
    {
        match configured {
            Some(v) => v,
            None => owned(self.default_rpc_url()),
        }
    }

    /// The environment variable that overrides this network's USDT contract.
    pub fn usdt_env_var(&self) -> (r: &'static str)
        ensures
            r@ == self.usdt_var_text(),
    {
        match self {
            Network::EthereumMainnet => "USDT_CONTRACT",
            Network::EthereumSepolia => "SEPOLIA_USDT_CONTRACT",
            Network::BaseMainnet => "BASE_USDT_CONTRACT",
            Network::BaseSepolia => "BASE_SEPOLIA_USDT_CONTRACT",
            Network::ArbitrumMainnet => "ARBITRUM_USDT_CONTRACT",
            Network::ArbitrumSepolia => "ARBITRUM_SEPOLIA_USDT_CONTRACT",
        }
    }

    /// The USDT contract address: the configured text (or the default),
    /// parsed; the zero address when it is not an address.
    pub fn usdt_address(&self, configured: Option<String>) -> (r: Address)
        ensures
            r.0@ == address_or_zero(
                match configured {
                    Some(v) => v@,
                    None => self.default_usdt_text(),
                },
            ),
    {
        let text = match configured {
            Some(v) => v,
            None => owned(
                match self {
                    Network::EthereumMainnet => "0xdAC17F958D2ee523a2206206994597C13D831ec7",
                    Network::ArbitrumMainnet => "0xFd086bC7CD5C481DCC9C85ebE478A1C0b69FCbb9",
                    _ => "0x0000000000000000000000000000000000000000",
                },
            ),
        };
        parse_address_or_zero(text.as_str())
    }

    /// The environment variable that overrides this network's USDC contract.
    pub fn usdc_env_var(&self) -> (r: &'static str)
        ensures
            r@ == self.usdc_var_text(),
    {
        match self {
            Network::EthereumMainnet => "USDC_CONTRACT",
            Network::EthereumSepolia => "SEPOLIA_USDC_CONTRACT",
            Network::BaseMainnet => "BASE_USDC_CONTRACT",
            Network::BaseSepolia => "BASE_SEPOLIA_USDC_CONTRACT",
            Network::ArbitrumMainnet => "ARBITRUM_USDC_CONTRACT",
            Network::ArbitrumSepolia => "ARBITRUM_SEPOLIA_USDC_CONTRACT",
        }
    }

    /// The USDC contract address: the configured text (or the default),
    /// parsed; the zero address when it is not an address.
    pub fn usdc_address(&self, configured: Option<String>) -> (r: Address)
        ensures
            r.0@ == address_or_zero(
                match configured {
                    Some(v) => v@,
                    None => self.default_usdc_text(),
                },
            ),
    {
        let text = match configured {
            Some(v) => v,
            None => owned(
                match self {
                    Network::EthereumMainnet => "0xA0b86991c6218b36c1d19D4a2e9Eb0cE3606eB48",
                    Network::EthereumSepolia => "0x1c7D4B196Cb0C7B01d743Fbc6116a902379C7238",
                    Network::BaseMainnet => "0x833589fCD6eDb6E08f4c7C32D4f71b54bdA02913",
                    Network::BaseSepolia => "0x036CbD53842c5426634e7929541eC2318f3dCF7e",
                    Network::ArbitrumMainnet => "0xaf88d065e77c8cC2239327C5EDb3A432268e5831",
                    Network::ArbitrumSepolia => "0x75faf114eafb1BDbe2F0316DF893fd58CE46AA4d",
                },
            ),
        };
        parse_address_or_zero(text.as_str())
    }

    /// The ERC-8040 contract address (the variable `ERC8040_CONTRACT` on every
    /// network): the configured text, or the zero address when it is unset or
    /// not an address.
    pub fn erc8040_address(&self, configured: Option<String>) -> (r: Address)
        ensures
            r.0@ == address_or_zero(
                match configured {
                    Some(v) => v@,
                    None => "0x0000000000000000000000000000000000000000"@,
                },
            ),
    {
        let text = match configured {
            Some(v) => v,
            None => owned("0x0000000000000000000000000000000000000000"),
        };
        parse_address_or_zero(text.as_str())
    }

    /// The network a name stands for, ignoring case.
    pub fn from_name(s: &str) -> (r: Result<Network, String>)
        ensures
            match r {
                Ok(n) => network_named(lowercase(s@)) == Some(n),
                Err(m) => network_named(lowercase(s@)) is None && m@ == "Unknown network: "@ + s@,
            },
            all_ascii(s@) ==> lowercase(s@) == ascii_lower_text(s@),
    {
        let t = to_lowercase(s);
        if same_text(&t, "ethereum") || same_text(&t, "mainnet") || same_text(&t, "ethereum-mainnet") {
            Ok(Network::EthereumMainnet)
        } else if same_text(&t, "sepolia") || same_text(&t, "ethereum-sepolia") {
            Ok(Network::EthereumSepolia)
        } else if same_text(&t, "base") || same_text(&t, "base-mainnet") {
            Ok(Network::BaseMainnet)
        } else if same_text(&t, "base-sepolia") {
            Ok(Network::BaseSepolia)
        } else if same_text(&t, "arbitrum") || same_text(&t, "arbitrum-mainnet") {
            Ok(Network::ArbitrumMainnet)
        } else if same_text(&t, "arbitrum-sepolia") {
            Ok(Network::ArbitrumSepolia)
        } else {
            let mut m = owned("Unknown network: ");
            push_str(&mut m, s);
            Err(m)
        }
    }
}

/// Network names ignore case: an ASCII name and its lowercase are both ASCII,
/// lowercase alike, and so stand for the same network (or both for none).
pub proof fn law_network_name_ignores_case(s: Seq<char>)
    requires
        all_ascii(s),
    ensures
        all_ascii(ascii_lower_text(s)),
        ascii_lower_text(ascii_lower_text(s)) == ascii_lower_text(s),
        network_named(ascii_lower_text(ascii_lower_text(s))) == network_named(ascii_lower_text(s)),
{
    let t = ascii_lower_text(s);
    assert forall|i: int| 0 <= i < t.len() implies (#[trigger] t[i] as u32) < 128 by {
        assert((s[i] as u32) < 128);
    }
    assert forall|i: int| 0 <= i < t.len() implies #[trigger] ascii_lower(t[i]) == t[i] by {
        let c = s[i];
        if 'A' <= c && c <= 'Z' {
            assert(!('A' <= t[i] && t[i] <= 'Z'));
        }
    }
    assert(ascii_lower_text(t) =~= t);
}

/// Every network has its published EIP-155 chain id (Ethereum 1, Sepolia
/// 11155111, Base 8453, Base Sepolia 84532, Arbitrum One 42161, Arbitrum
/// Sepolia 421614), and no two networks share a chain id.
pub proof fn law_chain_ids(a: Network, b: Network)
    ensures
        Network::EthereumMainnet.spec_chain_id() == 1,
        Network::EthereumSepolia.spec_chain_id() == 11155111,
        Network::BaseMainnet.spec_chain_id() == 8453,
        Network::BaseSepolia.spec_chain_id() == 84532,
        Network::ArbitrumMainnet.spec_chain_id() == 42161,
        Network::ArbitrumSepolia.spec_chain_id() == 421614,
        a != b ==> a.spec_chain_id() != b.spec_chain_id(),
{
}

/// The default token contracts of each network: USDT is Tether's contract on
/// Ethereum (`0xdAC1…1ec7`) and on Arbitrum One (`0xFd08…Cbb9`) and the zero
/// address elsewhere; USDC is Circle's contract on each network.
pub proof fn law_default_token_contracts()
    ensures
        Network::EthereumMainnet.default_usdt_text() == "0xdAC17F958D2ee523a2206206994597C13D831ec7"@,
        Network::ArbitrumMainnet.default_usdt_text() == "0xFd086bC7CD5C481DCC9C85ebE478A1C0b69FCbb9"@,
        Network::EthereumSepolia.default_usdt_text() == "0x0000000000000000000000000000000000000000"@,
        Network::BaseMainnet.default_usdt_text() == "0x0000000000000000000000000000000000000000"@,
        Network::BaseSepolia.default_usdt_text() == "0x0000000000000000000000000000000000000000"@,
        Network::ArbitrumSepolia.default_usdt_text() == "0x0000000000000000000000000000000000000000"@,
        Network::EthereumMainnet.default_usdc_text() == "0xA0b86991c6218b36c1d19D4a2e9Eb0cE3606eB48"@,
        Network::EthereumSepolia.default_usdc_text() == "0x1c7D4B196Cb0C7B01d743Fbc6116a902379C7238"@,
        Network::BaseMainnet.default_usdc_text() == "0x833589fCD6eDb6E08f4c7C32D4f71b54bdA02913"@,
        Network::BaseSepolia.default_usdc_text() == "0x036CbD53842c5426634e7929541eC2318f3dCF7e"@,
        Network::ArbitrumMainnet.default_usdc_text() == "0xaf88d065e77c8cC2239327C5EDb3A432268e5831"@,
        Network::ArbitrumSepolia.default_usdc_text() == "0x75faf114eafb1BDbe2F0316DF893fd58CE46AA4d"@,
{
}

/// The explorers and the configuration variables of each network.
pub proof fn law_network_settings()
    ensures
        Network::EthereumMainnet.explorer_text() == "https://etherscan.io"@,
        Network::EthereumSepolia.explorer_text() == "https://sepolia.etherscan.io"@,
        Network::BaseMainnet.explorer_text() == "https://basescan.org"@,
        Network::BaseSepolia.explorer_text() == "https://sepolia.basescan.org"@,
        Network::ArbitrumMainnet.explorer_text() == "https://arbiscan.io"@,
        Network::ArbitrumSepolia.explorer_text() == "https://sepolia.arbiscan.io"@,
        Network::EthereumMainnet.rpc_var_text() == "ETH_RPC_URL"@,
        Network::EthereumSepolia.rpc_var_text() == "SEPOLIA_RPC_URL"@,
        Network::BaseMainnet.rpc_var_text() == "BASE_RPC_URL"@,
        Network::BaseSepolia.rpc_var_text() == "BASE_SEPOLIA_RPC_URL"@,
        Network::ArbitrumMainnet.rpc_var_text() == "ARBITRUM_RPC_URL"@,
        Network::ArbitrumSepolia.rpc_var_text() == "ARBITRUM_SEPOLIA_RPC_URL"@,
        Network::EthereumMainnet.default_rpc_text() == "https://eth-mainnet.g.alchemy.com/v2/demo"@,
        Network::EthereumSepolia.default_rpc_text() == "https://eth-sepolia.g.alchemy.com/v2/demo"@,
        Network::BaseMainnet.default_rpc_text() == "https://mainnet.base.org"@,
        Network::BaseSepolia.default_rpc_text() == "https://sepolia.base.org"@,
        Network::ArbitrumMainnet.default_rpc_text() == "https://arb1.arbitrum.io/rpc"@,
        Network::ArbitrumSepolia.default_rpc_text() == "https://sepolia-rollup.arbitrum.io/rpc"@,
        Network::EthereumMainnet.usdt_var_text() == "USDT_CONTRACT"@,
        Network::EthereumSepolia.usdt_var_text() == "SEPOLIA_USDT_CONTRACT"@,
        Network::BaseMainnet.usdt_var_text() == "BASE_USDT_CONTRACT"@,
        Network::BaseSepolia.usdt_var_text() == "BASE_SEPOLIA_USDT_CONTRACT"@,
        Network::ArbitrumMainnet.usdt_var_text() == "ARBITRUM_USDT_CONTRACT"@,
        Network::ArbitrumSepolia.usdt_var_text() == "ARBITRUM_SEPOLIA_USDT_CONTRACT"@,
        Network::EthereumMainnet.usdc_var_text() == "USDC_CONTRACT"@,
        Network::EthereumSepolia.usdc_var_text() == "SEPOLIA_USDC_CONTRACT"@,
        Network::BaseMainnet.usdc_var_text() == "BASE_USDC_CONTRACT"@,
        Network::BaseSepolia.usdc_var_text() == "BASE_SEPOLIA_USDC_CONTRACT"@,
        Network::ArbitrumMainnet.usdc_var_text() == "ARBITRUM_USDC_CONTRACT"@,
        Network::ArbitrumSepolia.usdc_var_text() == "ARBITRUM_SEPOLIA_USDC_CONTRACT"@,
{
}

/// The names each network is known by, in lowercase.
pub proof fn law_network_names()
    ensures
        network_named("ethereum"@) == Some(Network::EthereumMainnet),
        network_named("mainnet"@) == Some(Network::EthereumMainnet),
        network_named("ethereum-mainnet"@) == Some(Network::EthereumMainnet),
        network_named("sepolia"@) == Some(Network::EthereumSepolia),
        network_named("ethereum-sepolia"@) == Some(Network::EthereumSepolia),
        network_named("base"@) == Some(Network::BaseMainnet),
        network_named("base-mainnet"@) == Some(Network::BaseMainnet),
        network_named("base-sepolia"@) == Some(Network::BaseSepolia),
        network_named("arbitrum"@) == Some(Network::ArbitrumMainnet),
        network_named("arbitrum-mainnet"@) == Some(Network::ArbitrumMainnet),
        network_named("arbitrum-sepolia"@) == Some(Network::ArbitrumSepolia),
{
    reveal_strlit("ethereum");
    reveal_strlit("mainnet");
    reveal_strlit("ethereum-mainnet");
    reveal_strlit("sepolia");
    reveal_strlit("ethereum-sepolia");
    reveal_strlit("base");
    reveal_strlit("base-mainnet");
    reveal_strlit("base-sepolia");
    reveal_strlit("arbitrum");
    reveal_strlit("arbitrum-mainnet");
    reveal_strlit("arbitrum-sepolia");
    assert("mainnet"@.len() != "ethereum"@.len());
    assert("ethereum-mainnet"@.len() != "ethereum"@.len());
    assert("ethereum-mainnet"@.len() != "mainnet"@.len());
    assert("sepolia"@.len() != "ethereum"@.len());
    assert("sepolia"@[0] != "mainnet"@[0]);
    assert("sepolia"@.len() != "ethereum-mainnet"@.len());
    assert("ethereum-sepolia"@.len() != "ethereum"@.len());
    assert("ethereum-sepolia"@.len() != "mainnet"@.len());
    assert("ethereum-sepolia"@[9] != "ethereum-mainnet"@[9]);
    assert("ethereum-sepolia"@.len() != "sepolia"@.len());
    assert("base"@.len() != "ethereum"@.len());
    assert("base"@.len() != "mainnet"@.len());
    assert("base"@.len() != "ethereum-mainnet"@.len());
    assert("base"@.len() != "sepolia"@.len());
    assert("base"@.len() != "ethereum-sepolia"@.len());
    assert("base-mainnet"@.len() != "ethereum"@.len());
    assert("base-mainnet"@.len() != "mainnet"@.len());
    assert("base-mainnet"@.len() != "ethereum-mainnet"@.len());
    assert("base-mainnet"@.len() != "sepolia"@.len());
    assert("base-mainnet"@.len() != "ethereum-sepolia"@.len());
    assert("base-mainnet"@.len() != "base"@.len());
    assert("base-sepolia"@.len() != "ethereum"@.len());
    assert("base-sepolia"@.len() != "mainnet"@.len());
    assert("base-sepolia"@.len() != "ethereum-mainnet"@.len());
    assert("base-sepolia"@.len() != "sepolia"@.len());
    assert("base-sepolia"@.len() != "ethereum-sepolia"@.len());
    assert("base-sepolia"@.len() != "base"@.len());
    assert("base-sepolia"@[5] != "base-mainnet"@[5]);
    assert("arbitrum"@[0] != "ethereum"@[0]);
    assert("arbitrum"@.len() != "mainnet"@.len());
    assert("arbitrum"@.len() != "ethereum-mainnet"@.len());
    assert("arbitrum"@.len() != "sepolia"@.len());
    assert("arbitrum"@.len() != "ethereum-sepolia"@.len());
    assert("arbitrum"@.len() != "base"@.len());
    assert("arbitrum"@.len() != "base-mainnet"@.len());
    assert("arbitrum"@.len() != "base-sepolia"@.len());
    assert("arbitrum-mainnet"@.len() != "ethereum"@.len());
    assert("arbitrum-mainnet"@.len() != "mainnet"@.len());
    assert("arbitrum-mainnet"@[0] != "ethereum-mainnet"@[0]);
    assert("arbitrum-mainnet"@.len() != "sepolia"@.len());
    assert("arbitrum-mainnet"@[0] != "ethereum-sepolia"@[0]);
    assert("arbitrum-mainnet"@.len() != "base"@.len());
    assert("arbitrum-mainnet"@.len() != "base-mainnet"@.len());
    assert("arbitrum-mainnet"@.len() != "base-sepolia"@.len());
    assert("arbitrum-mainnet"@.len() != "arbitrum"@.len());
    assert("arbitrum-sepolia"@.len() != "ethereum"@.len());
    assert("arbitrum-sepolia"@.len() != "mainnet"@.len());
    assert("arbitrum-sepolia"@[0] != "ethereum-mainnet"@[0]);
    assert("arbitrum-sepolia"@.len() != "sepolia"@.len());
    assert("arbitrum-sepolia"@[0] != "ethereum-sepolia"@[0]);
    assert("arbitrum-sepolia"@.len() != "base"@.len());
    assert("arbitrum-sepolia"@.len() != "base-mainnet"@.len());
    assert("arbitrum-sepolia"@.len() != "base-sepolia"@.len());
    assert("arbitrum-sepolia"@.len() != "arbitrum"@.len());
    assert("arbitrum-sepolia"@[9] != "arbitrum-mainnet"@[9]);
}

/// Text of small ASCII letters and dashes.
pub open spec fn is_lower_name(t: Seq<char>) -> bool {
    forall|i: int| 0 <= i < t.len() ==> ('a' <= #[trigger] t[i] && t[i] <= 'z') || t[i] == '-'
}

proof fn lemma_lower_name_fixed(t: Seq<char>)
    requires
        is_lower_name(t),
    ensures
        all_ascii(t),
        ascii_lower_text(t) == t,
{
    assert forall|i: int| 0 <= i < t.len() implies (#[trigger] t[i] as u32) < 128 by {
        assert(('a' <= t[i] && t[i] <= 'z') || t[i] == '-');
    }
    assert(ascii_lower_text(t) =~= t);
}

/// Every name that stands for a network is small ASCII letters and dashes.
proof fn lemma_network_names_lower(t: Seq<char>)
    requires
        network_named(t) is Some,
    ensures
        is_lower_name(t),
{
    reveal_strlit("ethereum");
    reveal_strlit("mainnet");
    reveal_strlit("ethereum-mainnet");
    reveal_strlit("sepolia");
    reveal_strlit("ethereum-sepolia");
    reveal_strlit("base");
    reveal_strlit("base-mainnet");
    reveal_strlit("base-sepolia");
    reveal_strlit("arbitrum");
    reveal_strlit("arbitrum-mainnet");
    reveal_strlit("arbitrum-sepolia");
}

/// A name that parses, for any input: its lowercase is ASCII and lowercases to
/// itself, so (by the ASCII clause of `from_name`) parsing the lowercased name
/// gives the same network.
pub proof fn law_accepted_name_lowercase_parses_alike(s: Seq<char>)
    requires
        network_named(lowercase(s)) is Some,
    ensures
        all_ascii(lowercase(s)),
        ascii_lower_text(lowercase(s)) == lowercase(s),
        network_named(ascii_lower_text(lowercase(s))) == network_named(lowercase(s)),
{
    lemma_network_names_lower(lowercase(s));
    lemma_lower_name_fixed(lowercase(s));
}

impl std::str::FromStr for Network {
    type Err = String;

    fn from_str(s: &str) -> (r: Result<Network, String>)
        ensures
            match r {
                Ok(n) => network_named(lowercase(s@)) == Some(n),
                Err(m) => network_named(lowercase(s@)) is None && m@ == "Unknown network: "@ + s@,
            },
            all_ascii(s@) ==> lowercase(s@) == ascii_lower_text(s@),
    {
        Network::from_name(s)
    }
}

} // verus!
