use agronet_backend::blockchain::networks::Network;
use agronet_backend::blockchain::transfer::{
    transfer_step, TransferAction, TransferEvent, TransferRequest, TransferState,
};
use agronet_backend::decimal::Amount;
use agronet_backend::ledger::ValidationResult;

const DEST: &str = "0x00000000000000000000000000000000000000ff";

fn request(network: Option<&str>, asset: &str, destination: &str) -> TransferRequest {
    TransferRequest {
        amount: Amount::from_parts(1250, 2).unwrap(), // 12.50
        asset: asset.to_string(),
        destination: destination.to_string(),
        network_name: network.map(|n| n.to_string()),
    }
}

fn approved() -> ValidationResult {
    ValidationResult { approved: true, reason: Some("OK".to_string()) }
}

#[test]
fn an_unknown_network_ends_the_transfer() {
    let req = request(Some("polygon"), "USDT", DEST);
    let (next, action) = transfer_step(&req, TransferState::Start, TransferEvent::Begin);
    assert!(matches!(next, TransferState::Done));
    match action {
        TransferAction::Fail { http_status, error, detail } => {
            assert_eq!(http_status, 400);
            assert_eq!(error, "invalid_network");
            assert_eq!(detail, "Unknown network: polygon");
        }
        _ => panic!("expected a failure"),
    }
}

#[test]
fn a_rejection_sends_nothing() {
    let req = request(None, "USDT", DEST);
    let (state, action) = transfer_step(&req, TransferState::Start, TransferEvent::Begin);
    assert!(matches!(action, TransferAction::Validate { ref channel } if channel == "ethereum"));
    let refused = ValidationResult { approved: false, reason: None };
    let (next, action) = transfer_step(&req, state, TransferEvent::Validated(refused));
    assert!(matches!(next, TransferState::Done));
    match action {
        TransferAction::Reject { log, answer } => {
            assert_eq!(log.tx_hash, "REJECTED");
            assert_eq!(answer.reason, "rejected");
            assert_eq!(answer.amount, "12.50");
            assert_eq!(answer.channel, "ethereum");
        }
        _ => panic!("expected a rejection"),
    }
}

#[test]
fn an_approved_transfer_is_sent_and_confirmed() {
    let req = request(Some("Base"), "usdc", DEST);
    let (s, _) = transfer_step(&req, TransferState::Start, TransferEvent::Begin);
    let (s, a) = transfer_step(&req, s, TransferEvent::Validated(approved()));
    assert!(matches!(a, TransferAction::ConnectProvider { ref channel } if channel == "Base"));
    let (s, a) = transfer_step(&req, s, TransferEvent::ProviderReady);
    assert!(matches!(a, TransferAction::ReadTokenConfig { env_var: "BASE_USDC_CONTRACT" }));
    let (s, a) = transfer_step(&req, s, TransferEvent::TokenConfigured(None));
    assert!(matches!(a, TransferAction::LoadWallet { chain_id: 8453 }));
    let (s, a) = transfer_step(&req, s, TransferEvent::WalletReady);
    let token = match a {
        TransferAction::ReadDecimals { token } => token,
        _ => panic!("expected a decimals read"),
    };
    assert_eq!(token, Network::BaseMainnet.usdc_address(None));
    let (s, a) = transfer_step(&req, s, TransferEvent::DecimalsRead(6));
    match a {
        TransferAction::Send { token: t, destination, amount } => {
            assert_eq!(t, token);
            assert_eq!(destination.0[19], 0xff);
            assert_eq!(amount, [12_500_000, 0, 0, 0]);
        }
        _ => panic!("expected a send"),
    }
    let (s, a) = transfer_step(&req, s, TransferEvent::Sent("0xabc".to_string()));
    assert!(matches!(a, TransferAction::Confirm));
    let (s, a) = transfer_step(
        &req,
        s,
        TransferEvent::Mined { status: Some(1), block_number: Some(7), gas_used: Some("21000".to_string()) },
    );
    assert!(matches!(s, TransferState::Done));
    match a {
        TransferAction::Finish { result } => {
            assert_eq!(result.status, "confirmed");
            assert_eq!(result.network, "Base");
            assert_eq!(result.explorer_url.as_deref(), Some("https://basescan.org/tx/0xabc"));
            assert_eq!(result.block_number, Some(7));
        }
        _ => panic!("expected the end"),
    }
}

#[test]
fn bad_destinations_and_assets_fail_before_any_wallet() {
    let req = request(None, "USDT", "0x12");
    let (s, _) = transfer_step(&req, TransferState::Start, TransferEvent::Begin);
    let (s, _) = transfer_step(&req, s, TransferEvent::Validated(approved()));
    let (_, a) = transfer_step(&req, s, TransferEvent::ProviderReady);
    assert!(matches!(a, TransferAction::Fail { http_status: 400, ref error, .. } if error == "invalid_address"));

    let req = request(None, "DAI", DEST);
    let (s, _) = transfer_step(&req, TransferState::Start, TransferEvent::Begin);
    let (s, _) = transfer_step(&req, s, TransferEvent::Validated(approved()));
    let (_, a) = transfer_step(&req, s, TransferEvent::ProviderReady);
    assert!(matches!(a, TransferAction::Fail { ref detail, .. } if detail == "Asset DAI not supported"));
}
