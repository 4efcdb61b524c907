use vstd::prelude::*;

verus! {

/// Why an invocation was rejected. Every variant is terminal: the handler
/// retries nothing and leaves no residual state behind a failure.
#[derive(Clone, Copy, PartialEq, Eq, Structural, Debug)]
pub enum ExecutionError {
    /// The source account's signature for this invocation is missing or
    /// invalid. Raised before any state is touched.
    Unauthorized,
    /// The ledger's transfer primitive rejected the request, for example
    /// for insufficient balance or because crediting the destination would
    /// overflow its balance. The primitive is atomic, so no balance moved.
    TransferFailed,
    /// The source or destination reference fails the shape validation the
    /// runtime owes before the handler runs, or the capability token does
    /// not refer to the genuine transfer primitive.
    MalformedAccounts,
}

/// The transfer primitive's own rejections, mapped by the handler to
/// `ExecutionError::TransferFailed`.
#[derive(Clone, Copy, PartialEq, Eq, Structural, Debug)]
pub enum LedgerError {
    /// The source balance is smaller than the requested amount.
    InsufficientFunds,
    /// Crediting the destination would overflow its balance.
    BalanceOverflow,
}

} // verus!
