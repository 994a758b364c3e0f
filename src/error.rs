use vstd::prelude::*;

verus! {

/// The failure kinds of an exchange; each names the first stage that failed.
#[derive(Clone, Copy, Debug, PartialEq, Eq, Structural)]
pub enum SwapError {
    /// A balance is smaller than the amount to move out of it.
    InsufficientFunds,
    /// The compression subsystem rejected the operation.
    InvalidCompressionState,
    /// Quoting overflowed.
    ArithmeticError,
    /// The quoted output is below the caller's floor.
    SlippageExceeded,
    /// The token ledger rejected a transfer.
    TransferError,
    /// A derived-authority proof did not match the claimed identity.
    AuthorizationError,
}

impl SwapError {
    /// Human-readable description of the failure.
    pub fn message(&self) -> (r: &'static str) {
        match self {
            SwapError::InsufficientFunds => "Insufficient funds",
            SwapError::InvalidCompressionState => "Invalid compression state",
            SwapError::ArithmeticError => "Arithmetic overflow while quoting",
            SwapError::SlippageExceeded => "Slippage tolerance exceeded",
            SwapError::TransferError => "Token transfer rejected",
            SwapError::AuthorizationError => "Derived authority mismatch",
        }
    }
}

} // verus!
