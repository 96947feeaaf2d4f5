use vstd::prelude::*;

verus! {

/// Why a request was rejected. A rejected request changes no account.
#[derive(Clone, Copy, Debug, PartialEq, Eq, Structural)]
pub enum AweError {
    /// A program-owned account does not sit at its derived address.
    InvalidSeed,
    /// A declared relationship between accounts does not hold.
    ConstraintViolation,
    /// A required signature is missing.
    Unauthorized,
    /// The token movement was refused.
    TransferFailed,
    /// Storage for a new record could not be reserved: the address is taken.
    AllocationFailed,
    /// A record that the request needs does not exist.
    AccountNotInitialized,
    /// The agent count is already at its largest value.
    Overflow,
}

} // verus!
