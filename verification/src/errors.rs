//! The error taxonomy: every way an operation can be refused.

use vstd::prelude::*;

verus! {

/// Why an operation was refused. Every error aborts the whole call: no state
/// mutation and no outbound directive are committed alongside one.
#[derive(Clone, Copy, Debug, PartialEq, Eq, Structural)]
pub enum HtlcError {
    /// Creation: the hash lock was empty.
    EmptyHashLock,
    /// Creation: the deadline was not strictly in the future.
    TimelockNotFuture,
    /// Creation: the locked amount was zero.
    ZeroAmount,
    /// The swap is no longer (or not yet) in the `Open` state.
    SwapNotOpen,
    /// The caller lacks the role the operation requires.
    Unauthorized,
    /// Funding: no coin of an accepted native denomination was attached.
    NoPayment,
    /// Funding: the attached native payment does not equal the locked amount.
    IncorrectPayment,
    /// Claim: the supplied preimage does not hash to the hash lock.
    InvalidPreimage,
    /// Claim: the deadline has already been reached.
    TimelockExpired,
    /// Refund: the deadline has not been reached yet.
    TimelockNotExpired,
    /// Token funding: the notification came from a contract other than the
    /// swap's configured token.
    WrongTokenContract,
    /// Token funding: the notified amount does not equal the locked amount.
    IncorrectTokenAmount,
}

impl HtlcError {
    /// The human-readable description of this error.
    pub open spec fn message_spec(self) -> Seq<char> {
        match self {
            HtlcError::EmptyHashLock => "Hash lock cannot be empty"@,
            HtlcError::TimelockNotFuture => "Timelock must be in the future"@,
            HtlcError::ZeroAmount => "Amount must be greater than zero"@,
            HtlcError::SwapNotOpen => "Swap is not open"@,
            HtlcError::Unauthorized => "Caller lacks the required role"@,
            HtlcError::NoPayment => "No payment found"@,
            HtlcError::IncorrectPayment => "Incorrect payment amount"@,
            HtlcError::InvalidPreimage => "Invalid preimage"@,
            HtlcError::TimelockExpired => "Timelock has expired"@,
            HtlcError::TimelockNotExpired => "Timelock has not expired"@,
            HtlcError::WrongTokenContract => "Wrong token contract"@,
            HtlcError::IncorrectTokenAmount => "Incorrect token amount"@,
        }
    }

    /// Renders the error for logs and host responses.
    pub fn message(&self) -> (r: String)
        ensures
            r@ == self.message_spec(),
    {
        match self {
            HtlcError::EmptyHashLock => "Hash lock cannot be empty".to_owned(),
            HtlcError::TimelockNotFuture => "Timelock must be in the future".to_owned(),
            HtlcError::ZeroAmount => "Amount must be greater than zero".to_owned(),
            HtlcError::SwapNotOpen => "Swap is not open".to_owned(),
            HtlcError::Unauthorized => "Caller lacks the required role".to_owned(),
            HtlcError::NoPayment => "No payment found".to_owned(),
            HtlcError::IncorrectPayment => "Incorrect payment amount".to_owned(),
            HtlcError::InvalidPreimage => "Invalid preimage".to_owned(),
            HtlcError::TimelockExpired => "Timelock has expired".to_owned(),
            HtlcError::TimelockNotExpired => "Timelock has not expired".to_owned(),
            HtlcError::WrongTokenContract => "Wrong token contract".to_owned(),
            HtlcError::IncorrectTokenAmount => "Incorrect token amount".to_owned(),
        }
    }
}

} // verus!
