use agronet_backend::blockchain::networks::{parse_address_or_zero, parse_destination, Network};
use agronet_backend::blockchain::provider::{chain_config_rpc_var, get_chain_config};
use std::str::FromStr;

#[test]
fn test_network_chain_ids() {
    assert_eq!(Network::EthereumMainnet.chain_id(), 1);
    assert_eq!(Network::EthereumSepolia.chain_id(), 11155111);
    assert_eq!(Network::BaseMainnet.chain_id(), 8453);
    assert_eq!(Network::ArbitrumMainnet.chain_id(), 42161);
}

#[test]
fn test_network_from_str() {
    assert_eq!(Network::from_str("ethereum").unwrap(), Network::EthereumMainnet);
    assert_eq!(Network::from_str("sepolia").unwrap(), Network::EthereumSepolia);
    assert_eq!(Network::from_str("base").unwrap(), Network::BaseMainnet);
    assert!(Network::from_str("unknown").is_err());
}

#[test]
fn test_chain_configs() {
    let eth_config = get_chain_config("ethereum", None);
    assert_eq!(eth_config.chain_id, 1);
    assert_eq!(eth_config.name, "Ethereum Mainnet");

    let sepolia_config = get_chain_config("sepolia", None);
    assert_eq!(sepolia_config.chain_id, 11155111);

    let base_config = get_chain_config("base", None);
    assert_eq!(base_config.chain_id, 8453);
}

#[test]
fn network_names_ignore_case_and_errors_name_the_input() {
    assert_eq!(Network::from_str("Arbitrum-Sepolia").unwrap(), Network::ArbitrumSepolia);
    assert_eq!(Network::from_str("ETHEREUM-MAINNET").unwrap(), Network::EthereumMainnet);
    assert_eq!(Network::from_str("Polygon").unwrap_err(), "Unknown network: Polygon");
}

#[test]
fn explorers_and_rpc() {
    assert_eq!(Network::BaseSepolia.explorer(), "https://sepolia.basescan.org");
    assert_eq!(Network::ArbitrumSepolia.chain_id(), 421614);
    assert_eq!(Network::BaseMainnet.rpc_url(None), "https://mainnet.base.org");
    assert_eq!(Network::BaseMainnet.rpc_url(Some("http://x".to_string())), "http://x");
    assert_eq!(Network::EthereumSepolia.rpc_env_var(), "SEPOLIA_RPC_URL");
}

#[test]
fn chain_config_matches_network_except_ethereum_sepolia() {
    for name in ["ethereum", "mainnet", "ethereum-mainnet", "sepolia", "base", "base-mainnet",
        "base-sepolia", "arbitrum", "arbitrum-mainnet", "arbitrum-sepolia"] {
        let n = Network::from_str(name).unwrap();
        let c = get_chain_config(name, None);
        assert_eq!(c.chain_id, n.chain_id(), "{}", name);
        assert_eq!(c.explorer_url, n.explorer());
    }
    assert_eq!(Network::from_str("ethereum-sepolia").unwrap().chain_id(), 11155111);
    assert_eq!(get_chain_config("ethereum-sepolia", None).chain_id, 1);
    let unknown = get_chain_config("solana", Some("http://rpc".to_string()));
    assert_eq!(unknown.chain_id, 1);
    assert_eq!(unknown.rpc_url, "http://rpc");
    assert_eq!(get_chain_config("Arbitrum", None).name, "Arbitrum One");
    assert_eq!(chain_config_rpc_var("base-sepolia"), "BASE_SEPOLIA_RPC_URL");
}

#[test]
fn contract_addresses() {
    let usdt = Network::EthereumMainnet.usdt_address(None);
    assert_eq!(usdt.0[0], 0xda);
    assert_eq!(usdt.0[19], 0xc7);
    assert_eq!(Network::BaseMainnet.usdt_address(None).0, [0u8; 20]);
    let usdc = Network::BaseMainnet.usdc_address(None);
    assert_eq!(usdc.0[0], 0x83);
    assert_eq!(Network::EthereumMainnet.usdt_address(Some("not an address".to_string())).0, [0u8; 20]);
    let custom = Network::EthereumMainnet.erc8040_address(Some(
        "1111111111111111111111111111111111111111".to_string(),
    ));
    assert_eq!(custom.0, [0x11u8; 20]);
    assert_eq!(Network::ArbitrumMainnet.erc8040_address(None).0, [0u8; 20]);
    let spaced = parse_address_or_zero("0x11 11111111111111111111111111111111111111");
    assert_eq!(spaced.0, [0x11u8; 20]);
    assert_eq!(parse_address_or_zero("0x111").0, [0u8; 20]);
}

#[test]
fn destinations_parse_or_name_the_error() {
    let a = parse_destination("0x00000000000000000000000000000000000000ff").unwrap();
    let mut expected = [0u8; 20];
    expected[19] = 0xff;
    assert_eq!(a.0, expected);
    let b = parse_destination("00000000000000000000000000000000000000ff").unwrap();
    assert_eq!(b.0, expected);
    let e = parse_destination("0x123").unwrap_err();
    assert!(!e.is_empty());
    assert!(parse_destination("0xzz00000000000000000000000000000000000000").is_err());
}

#[test]
fn network_names_parse_like_their_lowercase() {
    for name in ["ETHEREUM", "Base-Sepolia", "ARBITRUM-mainnet", "MainNet", "Polygon"] {
        assert_eq!(
            Network::from_str(name).ok(),
            Network::from_str(&name.to_lowercase()).ok()
        );
    }
}
