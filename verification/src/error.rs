use vstd::prelude::*;

verus! {

/// Every operation of the ledger either succeeds or reports exactly one of
/// these error kinds to its caller. All errors are terminal for the operation
/// that raised them: an operation that fails leaves the state unchanged.
#[derive(Clone, Copy, Debug, PartialEq, Eq, Structural)]
pub enum LendError {
    /// The caller is not the owner of the account it tried to operate on.
    Unauthorized,
    /// A balance, collateral, or outstanding-borrow precondition failed.
    InsufficientFunds,
    /// A repayment or lookup referenced a denomination with no position.
    TokenNotFound,
    /// An account record already exists for the owner.
    AccountExists,
    /// No account record exists for the owner.
    AccountDoesNotExist,
    /// A borrow would violate the collateral ratio.
    InsufficientCollateral,
    /// A repayment was requested without any accompanying funds.
    NoRepayment,
    /// An arithmetic step would overflow or underflow the unsigned amounts.
    MathError,
    /// Liquidity was provided in an unexpected denomination.
    WrongToken,
    /// The oracle has no price, or only a stale one, for the requested pair.
    PriceUnavailable,
}

impl LendError {
    /// The human-readable description of the error kind.
    pub open spec fn message_spec(&self) -> Seq<char> {
        match self {
            LendError::Unauthorized => "Unauthorized"@,
            LendError::InsufficientFunds => "Insufficient funds"@,
            LendError::TokenNotFound => "Token do not exist"@,
            LendError::AccountExists => "Account already exists"@,
            LendError::AccountDoesNotExist => "Account does not exist"@,
            LendError::InsufficientCollateral => "Insufficient collateral"@,
            LendError::NoRepayment => "No repayments needed"@,
            LendError::MathError => "Values donot match"@,
            LendError::WrongToken => "Wrong token"@,
            LendError::PriceUnavailable => "Price unavailable"@,
        }
    }

    pub fn message(&self) -> (r: String)
        ensures
            r@ == self.message_spec(),
    {
        match self {
            LendError::Unauthorized => "Unauthorized".to_owned(),
            LendError::InsufficientFunds => "Insufficient funds".to_owned(),
            LendError::TokenNotFound => "Token do not exist".to_owned(),
            LendError::AccountExists => "Account already exists".to_owned(),
            LendError::AccountDoesNotExist => "Account does not exist".to_owned(),
            LendError::InsufficientCollateral => "Insufficient collateral".to_owned(),
            LendError::NoRepayment => "No repayments needed".to_owned(),
            LendError::MathError => "Values donot match".to_owned(),
            LendError::WrongToken => "Wrong token".to_owned(),
            LendError::PriceUnavailable => "Price unavailable".to_owned(),
        }
    }
}

} // verus!
