use vstd::prelude::*;

verus! {

/// The remote queries whose failure the pipeline reports as a network
/// error, named so the caller sees which stage failed. A failed gas
/// simulation falls back instead, a rejected broadcast is a submission
/// failure, and a failed receipt wait leaves confirmation indeterminate.
#[derive(Clone, Copy, Debug, PartialEq, Eq, Structural)]
pub enum RpcOperation {
    GetBalance,
    GetGasPrice,
    GetTransactionCount,
}

/// A malformed input, detected before any network call.
#[derive(Clone, Copy, Debug, PartialEq, Eq, Structural)]
pub enum ValidationError {
    /// The destination address string is not `0x` followed by 40 hex digits.
    MalformedAddress,
    /// The destination is the all-zero address, never a valid transfer target.
    ZeroAddress,
    /// The amount string is not a non-negative decimal with at most 18
    /// fractional digits.
    MalformedAmount,
    /// A quantity does not fit the machine range the pipeline computes in.
    Overflow,
}

/// Everything the transfer pipeline can fail with. Failures before signing
/// abort with no on-chain effect; `Submission` and `ConfirmationIndeterminate`
/// concern a transaction the network may already have seen.
#[derive(Clone, Copy, Debug, PartialEq, Eq, Structural)]
pub enum TransferError {
    /// A malformed input; never retried.
    Validation(ValidationError),
    /// The endpoint was unreachable or answered malformed data on a query.
    Network(RpcOperation),
    /// The sender cannot cover value plus maximum fee; carries the diagnostic
    /// triple (balance, total cost, shortfall) in the network's smallest unit.
    InsufficientFunds { balance: u128, total_cost: u128, shortfall: u128 },
    /// The endpoint rejected the broadcast of the signed transaction.
    Submission,
    /// The broadcast was accepted but the confirmation wait failed: the
    /// transaction may or may not be included.
    ConfirmationIndeterminate,
}

} // verus!
