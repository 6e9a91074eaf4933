//! Error type of the Ledger integration.
use vstd::prelude::*;
use crate::text::{hex_text, owned, push_hex, push_str};

verus! {

/// Errors of the Ledger integration.
#[derive(Debug, Clone, PartialEq, Eq)]
pub enum LedgerError {
    /// Ledger device not found or not connected
    DeviceNotFound,
    /// User rejected the transaction on the device
    UserRejected,
    /// Ethereum app not open on the device
    AppNotOpen,
    /// Invalid response from device
    InvalidResponse(String),
    /// Communication error with device
    CommunicationError(String),
    /// Invalid derivation path
    InvalidPath(String),
    /// Timeout waiting for user confirmation
    Timeout,
    /// Device is locked
    DeviceLocked,
    /// Invalid APDU response status code
    InvalidStatusCode(u16),
}

/// What an error carries, with its texts as character sequences.
pub enum LedgerErrorView {
    DeviceNotFound,
    UserRejected,
    AppNotOpen,
    InvalidResponse(Seq<char>),
    CommunicationError(Seq<char>),
    InvalidPath(Seq<char>),
    Timeout,
    DeviceLocked,
    InvalidStatusCode(u16),
}

impl View for LedgerError {
    type V = LedgerErrorView;

    open spec fn view(&self) -> LedgerErrorView {
        match self {
            LedgerError::DeviceNotFound => LedgerErrorView::DeviceNotFound,
            LedgerError::UserRejected => LedgerErrorView::UserRejected,
            LedgerError::AppNotOpen => LedgerErrorView::AppNotOpen,
            LedgerError::InvalidResponse(m) => LedgerErrorView::InvalidResponse(m@),
            LedgerError::CommunicationError(m) => LedgerErrorView::CommunicationError(m@),
            LedgerError::InvalidPath(m) => LedgerErrorView::InvalidPath(m@),
            LedgerError::Timeout => LedgerErrorView::Timeout,
            LedgerError::DeviceLocked => LedgerErrorView::DeviceLocked,
            LedgerError::InvalidStatusCode(c) => LedgerErrorView::InvalidStatusCode(*c),
        }
    }
}

impl LedgerError {
    /// The text shown to a user for this error.
    pub open spec fn message_text(&self) -> Seq<char> {
        match self {
            LedgerError::DeviceNotFound => "Ledger device not found or not connected"@,
            LedgerError::UserRejected => "User rejected the transaction on device"@,
            LedgerError::AppNotOpen => "Ethereum app not open on Ledger device"@,
            LedgerError::InvalidResponse(msg) => "Invalid response from device: "@ + msg@,
            LedgerError::CommunicationError(msg) => "Communication error: "@ + msg@,
            LedgerError::InvalidPath(msg) => "Invalid derivation path: "@ + msg@,
            LedgerError::Timeout => "Timeout waiting for user confirmation"@,
            LedgerError::DeviceLocked => "Device is locked, please unlock it"@,
            LedgerError::InvalidStatusCode(code) => "Invalid status code: 0x"@ + hex_text(
                *code as nat,
                4,
            ),
        }
    }

    /// The text shown to a user for this error.
    pub fn message(&self) -> (r: String)
        ensures
            r@ == self.message_text(),
    {
        match self {
            LedgerError::DeviceNotFound => owned("Ledger device not found or not connected"),
            LedgerError::UserRejected => owned("User rejected the transaction on device"),
            LedgerError::AppNotOpen => owned("Ethereum app not open on Ledger device"),
            LedgerError::InvalidResponse(msg) => {
                let mut r = owned("Invalid response from device: ");
                push_str(&mut r, msg.as_str());
                r
            },
            LedgerError::CommunicationError(msg) => {
                let mut r = owned("Communication error: ");
                push_str(&mut r, msg.as_str());
                r
            },
            LedgerError::InvalidPath(msg) => {
                let mut r = owned("Invalid derivation path: ");
                push_str(&mut r, msg.as_str());
                r
            },
            LedgerError::Timeout => owned("Timeout waiting for user confirmation"),
            LedgerError::DeviceLocked => owned("Device is locked, please unlock it"),
            LedgerError::InvalidStatusCode(code) => {
                let mut r = owned("Invalid status code: 0x");
                push_hex(&mut r, *code as u64, 4);
                r
            },
        }
    }
}

} // verus!
