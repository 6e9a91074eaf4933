//! The steps of a real token transfer: which outside work comes next and what
//! each result leads to. The caller does the work (database, RPC, wallet) and
//! reports each result back as an event.
use vstd::prelude::*;
use crate::blockchain::ethereum::{
    base_units_text, dec_str_error_text, dec_str_value, explorer_tx_url, mined_result,
    receipt_status, rejection_answer, rejection_log, scale_factor_parts, token_for_asset,
    transfer_amount, unsupported_asset_detail, OnChainResult, RejectionAnswer, RejectionLog,
    TokenKind,
};
use crate::blockchain::networks::{
    address_error_text, address_from_text, address_or_zero, network_named, parse_destination,
    Address, Network,
};
use crate::blockchain::tx_builder::u256_value;
use crate::decimal::{decimal_product, signed_display, Amount};
use crate::ledger::ValidationResult;
use crate::text::{lowercase, owned, uppercase};

verus! {

/// What is to be transferred: the amount, the asset's name, the destination
/// text and the network's name (`ethereum` when none is given).
#[derive(Debug, Clone)]
pub struct TransferRequest {
    pub amount: Amount,
    pub asset: String,
    pub destination: String,
    pub network_name: Option<String>,
}

/// Where a transfer stands: what it waits for, and what it has learnt.
pub enum TransferState {
    /// Nothing done yet.
    Start,
    /// Waiting for the validation of the request on `channel`.
    AwaitValidation { network: Network, channel: String },
    /// Approved; waiting for the network's provider.
    AwaitProvider { network: Network, channel: String, validation: ValidationResult },
    /// Waiting for the configured contract address of `token`.
    AwaitTokenConfig {
        network: Network,
        channel: String,
        validation: ValidationResult,
        destination: Address,
        token: TokenKind,
    },
    /// Waiting for the signing wallet.
    AwaitWallet {
        network: Network,
        channel: String,
        validation: ValidationResult,
        destination: Address,
        token_address: Address,
    },
    /// Waiting for the token's decimals.
    AwaitDecimals {
        network: Network,
        channel: String,
        validation: ValidationResult,
        destination: Address,
        token_address: Address,
    },
    /// Waiting for the transfer to be sent.
    AwaitSend { network: Network, channel: String, validation: ValidationResult },
    /// Sent as `tx_hash`; waiting for its receipt.
    AwaitReceipt { network: Network, channel: String, validation: ValidationResult, tx_hash: String },
    /// Finished.
    Done,
}

/// The result of the outside work last asked for.
pub enum TransferEvent {
    /// The transfer is asked for.
    Begin,
    /// The request was validated.
    Validated(ValidationResult),
    /// The provider is ready.
    ProviderReady,
    /// The provider could not be made, with the error's text.
    ProviderFailed(String),
    /// The configured contract address, if any.
    TokenConfigured(Option<String>),
    /// No signing key is configured.
    KeyMissing,
    /// The signing key is no wallet, with the error's text.
    WalletFailed(String),
    /// The wallet is ready.
    WalletReady,
    /// The token's decimals.
    DecimalsRead(u32),
    /// Reading the decimals failed, with the error's text.
    DecimalsFailed(String),
    /// The transfer was sent under this hash.
    Sent(String),
    /// Sending failed, with the error's text.
    SendFailed(String),
    /// The transfer was mined: receipt status, block and gas used.
    Mined { status: Option<u64>, block_number: Option<u64>, gas_used: Option<String> },
    /// Waiting for the receipt failed, with the error's text.
    ConfirmFailed(String),
}

/// The outside work to do next, or the transfer's end.
pub enum TransferAction {
    /// Validate the request on this channel.
    Validate { channel: String },
    /// The request is refused: log this entry and give this answer.
    Reject { log: RejectionLog, answer: RejectionAnswer },
    /// Make the provider of this channel.
    ConnectProvider { channel: String },
    /// Read the contract address configured in this environment variable.
    ReadTokenConfig { env_var: &'static str },
    /// Make the signing wallet for this chain.
    LoadWallet { chain_id: u64 },
    /// Read the decimals of this token.
    ReadDecimals { token: Address },
    /// Send `amount` (256-bit limbs) of `token` to `destination`.
    Send { token: Address, destination: Address, amount: [u64; 4] },
    /// Wait for the sent transfer's receipt.
    Confirm,
    /// The transfer fails with this HTTP status, error code and detail.
    Fail { http_status: u16, error: String, detail: String },
    /// The transfer is done: log and answer this result.
    Finish { result: OnChainResult },
    /// The amount in base units cannot be computed (the multiplication
    /// overflows); the transfer cannot go on.
    Abort,
}

/// Whether the state waits for this kind of event.
pub open spec fn expects(state: TransferState, event: TransferEvent) -> bool {
    match (state, event) {
        (TransferState::Start, TransferEvent::Begin) => true,
        (TransferState::AwaitValidation { .. }, TransferEvent::Validated(_)) => true,
        (TransferState::AwaitProvider { .. }, TransferEvent::ProviderReady) => true,
        (TransferState::AwaitProvider { .. }, TransferEvent::ProviderFailed(_)) => true,
        (TransferState::AwaitTokenConfig { .. }, TransferEvent::TokenConfigured(_)) => true,
        (TransferState::AwaitWallet { .. }, TransferEvent::KeyMissing) => true,
        (TransferState::AwaitWallet { .. }, TransferEvent::WalletFailed(_)) => true,
        (TransferState::AwaitWallet { .. }, TransferEvent::WalletReady) => true,
        (TransferState::AwaitDecimals { .. }, TransferEvent::DecimalsRead(_)) => true,
        (TransferState::AwaitDecimals { .. }, TransferEvent::DecimalsFailed(_)) => true,
        (TransferState::AwaitSend { .. }, TransferEvent::Sent(_)) => true,
        (TransferState::AwaitSend { .. }, TransferEvent::SendFailed(_)) => true,
        (TransferState::AwaitReceipt { .. }, TransferEvent::Mined { .. }) => true,
        (TransferState::AwaitReceipt { .. }, TransferEvent::ConfirmFailed(_)) => true,
        _ => false,
    }
}

/// A failure with this status, code and detail.
pub open spec fn fails_with(a: TransferAction, status: u16, error: Seq<char>, detail: Seq<char>) -> bool {
    a matches TransferAction::Fail { http_status, error: e, detail: d } && http_status == status
        && e@ == error && d@ == detail
}

/// The token an asset's name stands for, ignoring case.
pub open spec fn asset_token(asset: Seq<char>) -> Option<TokenKind> {
    if uppercase(asset) == "USDT"@ {
        Some(TokenKind::Usdt)
    } else if uppercase(asset) == "USDC"@ {
        Some(TokenKind::Usdc)
    } else {
        None
    }
}

/// The contract address of a token on a network, from its configured text.
pub open spec fn token_address_of(network: Network, token: TokenKind, configured: Option<String>) -> Seq<u8> {
    address_or_zero(
        match (configured, token) {
            (Some(v), _) => v@,
            (None, TokenKind::Usdt) => network.default_usdt_text(),
            (None, TokenKind::Usdc) => network.default_usdc_text(),
        },
    )
}

/// The transfer amount for `decimals` decimals: `None` where the base units
/// cannot be computed, else the 256-bit value or the conversion message.
pub open spec fn amount_for_decimals(amount: (i128, u32), decimals: u32) -> Option<Result<int, Seq<char>>> {
    if decimals > 19 || decimal_product(amount, scale_factor_parts(decimals)) is None {
        None
    } else {
        match dec_str_value(base_units_text(amount, decimals)) {
            Ok(v) => Some(Ok(v)),
            Err(e) => Some(Err("Failed to convert amount: "@ + dec_str_error_text(e))),
        }
    }
}

/// The channel a request is validated and recorded on.
pub open spec fn channel_of(req: TransferRequest) -> Seq<char> {
    match req.network_name {
        Some(n) => n@,
        None => "ethereum"@,
    }
}

/// One step of a transfer: the next state and the outside work to do. A
/// failure, rejection, abort or finish ends the transfer (`Done`).
pub open spec fn transfer_step_spec(
    req: TransferRequest,
    state: TransferState,
    event: TransferEvent,
    next: TransferState,
    action: TransferAction,
) -> bool {
    match (state, event) {
        (TransferState::Start, TransferEvent::Begin) => match network_named(
            lowercase(channel_of(req)),
        ) {
            None => next is Done && fails_with(
                action,
                400,
                "invalid_network"@,
                "Unknown network: "@ + channel_of(req),
            ),
            Some(n) => (next matches TransferState::AwaitValidation { network, channel } && network
                == n && channel@ == channel_of(req)) && (action matches TransferAction::Validate {
                channel } && channel@ == channel_of(req)),
        },
        (TransferState::AwaitValidation { network, channel }, TransferEvent::Validated(v)) => if !v.approved {
            next is Done && (action matches TransferAction::Reject { log, answer } && log.tx_hash@
                == "REJECTED"@ && log.status@ == "rejected"@ && log.validation_status@
                == "rejected"@ && log.validation_reason@ == answer.reason@ && answer.http_status
                == 400 && answer.status@ == "rejected"@ && answer.reason@ == (match v.reason {
                Some(m) => m@,
                None => "rejected"@,
            }) && answer.channel@ == channel@ && answer.amount@ == signed_display(
                req.amount.parts(),
                req.amount.is_negative_zero(),
            )
                && answer.currency@ == req.asset@)
        } else {
            (next matches TransferState::AwaitProvider { network: n2, channel: c2, validation }
                && n2 == network && c2@ == channel@ && validation == v) && (
            action matches TransferAction::ConnectProvider { channel: c3 } && c3@ == channel@)
        },
        (TransferState::AwaitProvider { .. }, TransferEvent::ProviderFailed(m)) => next is Done
            && fails_with(action, 500, "provider_error"@, m@),
        (TransferState::AwaitProvider { network, channel, validation }, TransferEvent::ProviderReady) => {
            match address_from_text(req.destination@) {
                None => next is Done && fails_with(
                    action,
                    400,
                    "invalid_address"@,
                    address_error_text(req.destination@),
                ),
                Some(d) => match asset_token(req.asset@) {
                    None => next is Done && fails_with(
                        action,
                        400,
                        "unsupported_asset"@,
                        "Asset "@ + req.asset@ + " not supported"@,
                    ),
                    Some(k) => (next matches TransferState::AwaitTokenConfig {
                        network: n2,
                        channel: c2,
                        validation: v2,
                        destination,
                        token,
                    } && n2 == network && c2@ == channel@ && v2 == validation && destination.0@
                        == d && token == k) && (action matches TransferAction::ReadTokenConfig {
                        env_var } && env_var@ == match k {
                        TokenKind::Usdt => network.usdt_var_text(),
                        TokenKind::Usdc => network.usdc_var_text(),
                    }),
                },
            }
        },
        (
            TransferState::AwaitTokenConfig { network, channel, validation, destination, token },
            TransferEvent::TokenConfigured(cfg),
        ) => (next matches TransferState::AwaitWallet {
            network: n2,
            channel: c2,
            validation: v2,
            destination: d2,
            token_address,
        } && n2 == network && c2@ == channel@ && v2 == validation && d2 == destination
            && token_address.0@ == token_address_of(network, token, cfg)) && (
        action matches TransferAction::LoadWallet { chain_id } && chain_id
            == network.spec_chain_id()),
        (TransferState::AwaitWallet { .. }, TransferEvent::KeyMissing) => next is Done && fails_with(
            action,
            500,
            "configuration_error"@,
            "ETH_PRIVATE_KEY not configured"@,
        ),
        (TransferState::AwaitWallet { .. }, TransferEvent::WalletFailed(m)) => next is Done
            && fails_with(action, 500, "wallet_error"@, m@),
        (
            TransferState::AwaitWallet { network, channel, validation, destination, token_address },
            TransferEvent::WalletReady,
        ) => (next matches TransferState::AwaitDecimals {
            network: n2,
            channel: c2,
            validation: v2,
            destination: d2,
            token_address: t2,
        } && n2 == network && c2@ == channel@ && v2 == validation && d2 == destination && t2
            == token_address) && (action matches TransferAction::ReadDecimals { token } && token
            == token_address),
        (TransferState::AwaitDecimals { .. }, TransferEvent::DecimalsFailed(m)) => next is Done
            && fails_with(action, 500, "decimals_fetch_failed"@, m@),
        (
            TransferState::AwaitDecimals { network, channel, validation, destination, token_address },
            TransferEvent::DecimalsRead(decimals),
        ) => match amount_for_decimals(req.amount.parts(), decimals) {
            None => next is Done && action is Abort,
            Some(Err(m)) => next is Done && fails_with(action, 400, "invalid_amount"@, m),
            Some(Ok(value)) => (next matches TransferState::AwaitSend {
                network: n2,
                channel: c2,
                validation: v2,
            } && n2 == network && c2@ == channel@ && v2 == validation) && (
            action matches TransferAction::Send { token, destination: d2, amount } && token
                == token_address && d2 == destination && u256_value(amount@) == value),
        },
        (TransferState::AwaitSend { .. }, TransferEvent::SendFailed(m)) => next is Done
            && fails_with(action, 500, "transaction_failed"@, m@),
        (TransferState::AwaitSend { network, channel, validation }, TransferEvent::Sent(h)) => (
        next matches TransferState::AwaitReceipt { network: n2, channel: c2, validation: v2, tx_hash }
            && n2 == network && c2@ == channel@ && v2 == validation && tx_hash@ == h@) && action
            is Confirm,
        (TransferState::AwaitReceipt { .. }, TransferEvent::ConfirmFailed(m)) => next is Done
            && fails_with(action, 500, "confirmation_failed"@, m@),
        (
            TransferState::AwaitReceipt { network, channel, validation, tx_hash },
            TransferEvent::Mined { status, block_number, gas_used },
        ) => next is Done && (action matches TransferAction::Finish { result } && result.tx_hash@
            == tx_hash@ && result.network@ == channel@ && result.status@ == (if status == Some(
            1u64,
        ) {
            "confirmed"@
        } else {
            "failed"@
        }) && result.validation_status@ == "approved"@ && (result.validation_reason matches Some(
            m,
        ) && m@ == match validation.reason {
            Some(x) => x@,
            None => "OK"@,
        }) && result.block_number == block_number && result.gas_used == gas_used && (
        result.explorer_url matches Some(u) && u@ == network.explorer_text() + "/tx/"@ + tx_hash@)),
        _ => false,
    }
}

/// Whether every validation the state carries approved the request (states
/// before validation carry none).
pub open spec fn holds_approval(state: TransferState) -> bool {
    match state {
        TransferState::AwaitProvider { validation, .. } => validation.approved,
        TransferState::AwaitTokenConfig { validation, .. } => validation.approved,
        TransferState::AwaitWallet { validation, .. } => validation.approved,
        TransferState::AwaitDecimals { validation, .. } => validation.approved,
        TransferState::AwaitSend { validation, .. } => validation.approved,
        TransferState::AwaitReceipt { validation, .. } => validation.approved,
        _ => true,
    }
}

/// Nothing is sent unless validation approved, and nothing follows a refusal:
/// each step keeps every carried validation approving; a transfer is sent
/// only from the state that has its decimals read, after an approval; and an
/// unknown network, a rejection, a failure or an abort ends the transfer.
pub proof fn law_send_only_after_approval(
    req: TransferRequest,
    state: TransferState,
    event: TransferEvent,
    next: TransferState,
    action: TransferAction,
)
    requires
        transfer_step_spec(req, state, event, next, action),
        holds_approval(state),
    ensures
        holds_approval(next),
        action is Send ==> (state matches TransferState::AwaitDecimals { validation, .. }
            && validation.approved),
        (action is Fail || action is Reject || action is Abort || action is Finish) ==> next is Done,
        !expects(TransferState::Done, event),
{
}

/// Takes one step of a transfer: from where it stands and the result of the
/// work last asked for, the next state and the work to do next.
pub fn transfer_step(req: &TransferRequest, state: TransferState, event: TransferEvent) -> (r: (
    TransferState,
    TransferAction,
))
    requires
        expects(state, event),
    ensures
        transfer_step_spec(*req, state, event, r.0, r.1),
{
    match (state, event) {
        (TransferState::Start, TransferEvent::Begin) => {
            let name = match &req.network_name {
                Some(n) => n.clone(),
                None => owned("ethereum"),
            };
            match Network::from_name(name.as_str()) {
                Err(e) => (
                    TransferState::Done,
                    TransferAction::Fail { http_status: 400, error: owned("invalid_network"), detail: e },
                ),
                Ok(n) => {
                    let channel = name.clone();
                    (
                        TransferState::AwaitValidation { network: n, channel: name },
                        TransferAction::Validate { channel },
                    )
                },
            }
        },
        (TransferState::AwaitValidation { network, channel }, TransferEvent::Validated(v)) => {
            if !v.approved {
                let log = rejection_log(&v);
                let answer = rejection_answer(channel.as_str(), &req.amount, req.asset.as_str(), &v);
                (TransferState::Done, TransferAction::Reject { log, answer })
            } else {
                let c = channel.clone();
                (
                    TransferState::AwaitProvider { network, channel, validation: v },
                    TransferAction::ConnectProvider { channel: c },
                )
            }
        },
        (TransferState::AwaitProvider { .. }, TransferEvent::ProviderFailed(m)) => (
            TransferState::Done,
            TransferAction::Fail { http_status: 500, error: owned("provider_error"), detail: m },
        ),
        (TransferState::AwaitProvider { network, channel, validation }, TransferEvent::ProviderReady) => {
            let destination = match parse_destination(req.destination.as_str()) {
                Ok(d) => d,
                Err(m) => {
                    return (
                        TransferState::Done,
                        TransferAction::Fail { http_status: 400, error: owned("invalid_address"), detail: m },
                    );
                },
            };
            match token_for_asset(req.asset.as_str()) {
                None => (
                    TransferState::Done,
                    TransferAction::Fail {
                        http_status: 400,
                        error: owned("unsupported_asset"),
                        detail: unsupported_asset_detail(req.asset.as_str()),
                    },
                ),
                Some(token) => {
                    let env_var = match token {
                        TokenKind::Usdt => network.usdt_env_var(),
                        TokenKind::Usdc => network.usdc_env_var(),
                    };
                    (
                        TransferState::AwaitTokenConfig { network, channel, validation, destination, token },
                        TransferAction::ReadTokenConfig { env_var },
                    )
                },
            }
        },
        (
            TransferState::AwaitTokenConfig { network, channel, validation, destination, token },
            TransferEvent::TokenConfigured(cfg),
        ) => {
            let token_address = match token {
                TokenKind::Usdt => network.usdt_address(cfg),
                TokenKind::Usdc => network.usdc_address(cfg),
            };
            let chain_id = network.chain_id();
            (
                TransferState::AwaitWallet { network, channel, validation, destination, token_address },
                TransferAction::LoadWallet { chain_id },
            )
        },
        (TransferState::AwaitWallet { .. }, TransferEvent::KeyMissing) => (
            TransferState::Done,
            TransferAction::Fail {
                http_status: 500,
                error: owned("configuration_error"),
                detail: owned("ETH_PRIVATE_KEY not configured"),
            },
        ),
        (TransferState::AwaitWallet { .. }, TransferEvent::WalletFailed(m)) => (
            TransferState::Done,
            TransferAction::Fail { http_status: 500, error: owned("wallet_error"), detail: m },
        ),
        (
            TransferState::AwaitWallet { network, channel, validation, destination, token_address },
            TransferEvent::WalletReady,
        ) => (
            TransferState::AwaitDecimals { network, channel, validation, destination, token_address },
            TransferAction::ReadDecimals { token: token_address },
        ),
        (TransferState::AwaitDecimals { .. }, TransferEvent::DecimalsFailed(m)) => (
            TransferState::Done,
            TransferAction::Fail { http_status: 500, error: owned("decimals_fetch_failed"), detail: m },
        ),
        (
            TransferState::AwaitDecimals { network, channel, validation, destination, token_address },
            TransferEvent::DecimalsRead(decimals),
        ) => match transfer_amount(&req.amount, decimals) {
            None => (TransferState::Done, TransferAction::Abort),
            Some(Err(m)) => (
                TransferState::Done,
                TransferAction::Fail { http_status: 400, error: owned("invalid_amount"), detail: m },
            ),
            Some(Ok(amount)) => (
                TransferState::AwaitSend { network, channel, validation },
                TransferAction::Send { token: token_address, destination, amount },
            ),
        },
        (TransferState::AwaitSend { .. }, TransferEvent::SendFailed(m)) => (
            TransferState::Done,
            TransferAction::Fail { http_status: 500, error: owned("transaction_failed"), detail: m },
        ),
        (TransferState::AwaitSend { network, channel, validation }, TransferEvent::Sent(h)) => (
            TransferState::AwaitReceipt { network, channel, validation, tx_hash: h },
            TransferAction::Confirm,
        ),
        (TransferState::AwaitReceipt { .. }, TransferEvent::ConfirmFailed(m)) => (
            TransferState::Done,
            TransferAction::Fail { http_status: 500, error: owned("confirmation_failed"), detail: m },
        ),
        (
            TransferState::AwaitReceipt { network, channel, validation, tx_hash },
            TransferEvent::Mined { status, block_number, gas_used },
        ) => {
            let url = explorer_tx_url(network, tx_hash.as_str());
            let result = mined_result(
                channel.as_str(),
                tx_hash,
                receipt_status(status),
                &validation,
                block_number,
                gas_used,
                url,
            );
            (TransferState::Done, TransferAction::Finish { result })
        },
        _ => (TransferState::Done, TransferAction::Abort),
    }
}

} // verus!
