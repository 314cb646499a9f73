//! Why a deployment attempt stopped.
use crate::amount::Amount;
use vstd::prelude::*;

verus! {

/// Every failure is terminal for the attempt that met it.
#[derive(Clone, Debug, PartialEq, Eq)]
pub enum DeployError {
    /// The sender cannot pay the data fee and the constructor value.
    InsufficientFunds { sender: [u8; 20], balance: Amount, required: Amount },
    /// A fee ceiling in gwei does not fit in 128 bits once in wei.
    FeeOverflow,
    /// The data fee and the constructor value together exceed 256 bits.
    AmountOverflow,
    /// The node would not estimate the gas of the deployment.
    EstimationFailure { reason: String },
    /// A query of the sender's balance, nonce or of the gas price failed.
    QueryFailure { reason: String },
    /// The transaction could not be sent.
    SubmissionFailure { reason: String },
    /// Waiting for the receipt failed.
    ReceiptFailure { reason: String },
    /// The wait ended without a receipt.
    MissingReceipt { tx_hash: [u8; 32] },
    /// A successful receipt names no created contract.
    MissingContractAddress { tx_hash: [u8; 32] },
}

} // verus!
