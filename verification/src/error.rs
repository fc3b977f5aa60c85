//! The ways in which an operation on the pool can fail.

use vstd::prelude::*;
use crate::liquidity_util::LiquidityLockId;
use crate::token_balances::{Token, TokenAmount};

verus! {

/// The broad classes of failure.
#[derive(Clone, Copy, Debug, PartialEq, Eq, Structural)]
pub enum ErrorKind {
    /// The request does not fit the state of the pool.
    Validation,
    /// The caller may not do what was asked.
    PermissionDenied,
    /// A call to another contract was seen to fail.
    ExternalCallFailed,
    /// A number left the range of its type: a broken invariant, not a user's mistake.
    ArithmeticOverflow,
}

/// Why an operation was refused.
#[derive(Clone, Copy, Debug, PartialEq, Eq, Structural)]
pub enum SwapError {
    /// The swap fee is above a thousand per mille.
    FeeOutOfRange,
    /// The address given for token A belongs to an account.
    TokenANotContract,
    /// The address given for token B belongs to an account.
    TokenBNotContract,
    /// Tokens A and B were given the same address.
    IdenticalTokens,
    /// The address is that of neither reserve token.
    UnknownToken,
    /// The holder owns less of `token` than was to be taken.
    InsufficientBalance { token: Token, balance: TokenAmount, amount: TokenAmount },
    /// The liquidity provided would mint no liquidity token.
    ZeroMintedLiquidity,
    /// One of the pools is empty, so nothing can be swapped.
    NoLiquidity,
    /// Initial liquidity was offered to pools that already hold some.
    PoolsNotEmpty,
    /// Liquidity cannot be reclaimed while locks are outstanding.
    LocksPresent,
    /// The swap would pay out less than the caller asked for at least.
    BelowMinimum { amount_out: TokenAmount, amount_out_minimum: TokenAmount },
    /// No lock has this id.
    UnknownLock { lock_id: LiquidityLockId },
    /// The lock belongs to someone else.
    NotLockOwner { lock_id: LiquidityLockId },
    /// The caller may not acquire locks.
    LockPermissionMissing,
    /// The token contract reported that the transfer failed.
    TransferFailed,
    /// An amount left the range of its type.
    ArithmeticOverflow,
    /// A price was asked of an empty pool for an empty input.
    DivisionByZero,
}

impl SwapError {
    /// The class of this failure.
    pub open spec fn spec_kind(&self) -> ErrorKind {
        match self {
            SwapError::NotLockOwner { .. } | SwapError::LockPermissionMissing => {
                ErrorKind::PermissionDenied
            },
            SwapError::TransferFailed => ErrorKind::ExternalCallFailed,
            SwapError::ArithmeticOverflow | SwapError::DivisionByZero => {
                ErrorKind::ArithmeticOverflow
            },
            _ => ErrorKind::Validation,
        }
    }

    /// The class of this failure.
    #[verifier::when_used_as_spec(spec_kind)]
    pub fn kind(&self) -> (kind: ErrorKind)
        ensures
            kind == self.spec_kind(),
    {
        match self {
            SwapError::NotLockOwner { .. } | SwapError::LockPermissionMissing => {
                ErrorKind::PermissionDenied
            },
            SwapError::TransferFailed => ErrorKind::ExternalCallFailed,
            SwapError::ArithmeticOverflow | SwapError::DivisionByZero => {
                ErrorKind::ArithmeticOverflow
            },
            _ => ErrorKind::Validation,
        }
    }
}

} // verus!
