//! The ways in which a run can fail.

use vstd::prelude::*;
use crate::text::{decimal_string, decimal_text};

verus! {

/// Why a derivation, a balance query, a transfer or a configuration failed.
#[derive(Clone, Copy, Debug, PartialEq, Eq, Structural)]
pub enum FundError {
    /// The secret phrase is malformed.
    InvalidSecret,
    /// The index cannot be encoded as a hardened path level.
    InvalidPath,
    /// The ledger could not be reached, or did not answer in time.
    NetworkError,
    /// The ledger does not accept the asset identifier.
    UnknownAsset,
    /// The source holds less than the transfer asks for.
    InsufficientFunds { requested: u64, available: u64 },
    /// The ledger refused a transfer that was submitted.
    TransferRejected,
    /// More than one mode, no wallets, a reclaim fraction outside (0, 100]
    /// percent, or a malformed asset identifier.
    ConfigurationError,
}

impl FundError {
    /// The message of this error, with the amounts that it is about.
    pub open spec fn message_text(self) -> Seq<char> {
        match self {
            FundError::InvalidSecret => "Invalid secret phrase"@,
            FundError::InvalidPath => "Invalid derivation path"@,
            FundError::NetworkError => "Network error"@,
            FundError::UnknownAsset => "Unknown asset"@,
            FundError::InsufficientFunds { requested, available } => {
                "Insufficient funds: attempted to send "@ + decimal_text(requested as nat)
                    + ", but balance is "@ + decimal_text(available as nat)
            },
            FundError::TransferRejected => "Transfer rejected by the ledger"@,
            FundError::ConfigurationError => "Invalid configuration"@,
        }
    }

    /// Writes the message of this error.
    pub fn message(&self) -> (text: String)
        ensures
            text@ == self.message_text(),
    {
        match self {
            FundError::InvalidSecret => String::from_str("Invalid secret phrase"),
            FundError::InvalidPath => String::from_str("Invalid derivation path"),
            FundError::NetworkError => String::from_str("Network error"),
            FundError::UnknownAsset => String::from_str("Unknown asset"),
            FundError::InsufficientFunds { requested, available } => {
                let mut text = String::from_str("Insufficient funds: attempted to send ");
                let wanted = decimal_string(*requested);
                text.append(wanted.as_str());
                text.append(", but balance is ");
                let held = decimal_string(*available);
                text.append(held.as_str());
                text
            },
            FundError::TransferRejected => String::from_str("Transfer rejected by the ledger"),
            FundError::ConfigurationError => String::from_str("Invalid configuration"),
        }
    }
}

} // verus!
