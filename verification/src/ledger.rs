//! The account ledger: per-owner balance and debt, per-token collateral and
//! borrow positions, and the transition operations over them.
//!
//! Every operation computes its preconditions and new values before writing,
//! so a failed operation performs no writes: its contract says the state is
//! unchanged. The exact meaning of each operation is a spec-level transition
//! (`*_result` for the outcome, `*_next` for the state after), and each
//! executable operation is proved to follow its transition.

use vstd::prelude::*;
use vstd::string::StringSliceAdditionalSpecFns;

use crate::error::LendError;
use crate::store;
use crate::token::Token;
use crate::token::str_eq;

verus! {

/// The fixed collateralization ratio in percent: a borrow of `amount` locks
/// `amount * 100 / BORROW_RATIO_PERCENT` units of collateral, rounded down.
pub const BORROW_RATIO_PERCENT: u128 = 80;

/// A snapshot of one account: the owner's address, the funds available for
/// collateral use, and the total debt across all tokens.
#[derive(Debug, Clone)]
pub struct Account {
    pub owner: String,
    pub balance: u128,
    pub debt: u128,
}

/// The balance part of an account snapshot.
#[derive(Debug, Clone, Copy, PartialEq, Eq, Structural)]
pub struct GetBalanceResponse {
    pub balance: u128,
}

/// The operation a record reports.
#[derive(Debug, Clone, Copy, PartialEq, Eq, Structural)]
pub enum OpAction {
    CreateAccount,
    DeleteAccount,
    Deposit,
    Withdraw,
    Borrow,
    Repay,
    ReleaseCollateral,
    ProvideLiquidity,
    WithdrawLiquidity,
}

/// The advisory record a successful operation emits: the action, the actor,
/// the token it concerned, and the primary mutated amount before and after.
/// It reports what happened; it is not part of the consistency contract.
#[derive(Debug, Clone)]
pub struct OpRecord {
    pub action: OpAction,
    pub actor: String,
    pub token: Option<String>,
    pub amount: u128,
    pub amount_before: u128,
    pub amount_after: u128,
}

/// The mathematical state of the ledger: account records keyed by owner
/// address, and the two position maps keyed by (owner, denomination).
/// An account record is the pair (balance, debt).
#[verifier::ext_equal]
pub struct LedgerView {
    pub accounts: Map<Seq<char>, (u128, u128)>,
    pub collateral: Map<(Seq<char>, Seq<char>), u128>,
    pub borrows: Map<(Seq<char>, Seq<char>), u128>,
}

/// The amount a position map holds for (owner, denom); absent means zero
/// locked or owed, though the two are distinguished where it matters.
pub open spec fn position_amount(
    m: Map<(Seq<char>, Seq<char>), u128>,
    owner: Seq<char>,
    denom: Seq<char>,
) -> u128 {
    if m.contains_key((owner, denom)) {
        m[(owner, denom)]
    } else {
        0u128
    }
}

/// A position map updated to a new amount, keeping the rule that no
/// zero-value entry persists.
pub open spec fn position_set(
    m: Map<(Seq<char>, Seq<char>), u128>,
    owner: Seq<char>,
    denom: Seq<char>,
    amount: u128,
) -> Map<(Seq<char>, Seq<char>), u128> {
    if amount > 0 {
        m.insert((owner, denom), amount)
    } else {
        m.remove((owner, denom))
    }
}

/// What creating an account for `owner` yields: the fresh (balance, debt)
/// record, or `AccountExists` if a record is already there.
pub open spec fn create_account_result(v: LedgerView, owner: Seq<char>) -> Result<
    (u128, u128),
    LendError,
> {
    if v.accounts.contains_key(owner) {
        Err(LendError::AccountExists)
    } else {
        Ok((0u128, 0u128))
    }
}

pub open spec fn create_account_next(v: LedgerView, owner: Seq<char>) -> LedgerView {
    match create_account_result(v, owner) {
        Ok(a) => (LedgerView { accounts: v.accounts.insert(owner, a), ..v }),
        Err(_) => v,
    }
}

/// What deleting the account of `owner` yields: `AccountDoesNotExist` if no
/// record is there, `InsufficientFunds` while debt is outstanding, else
/// removal.
pub open spec fn delete_account_result(v: LedgerView, owner: Seq<char>) -> Result<
    (),
    LendError,
> {
    if !v.accounts.contains_key(owner) {
        Err(LendError::AccountDoesNotExist)
    } else if v.accounts[owner].1 != 0 {
        Err(LendError::InsufficientFunds)
    } else {
        Ok(())
    }
}

pub open spec fn delete_account_next(v: LedgerView, owner: Seq<char>) -> LedgerView {
    match delete_account_result(v, owner) {
        Ok(_) => (LedgerView { accounts: v.accounts.remove(owner), ..v }),
        Err(_) => v,
    }
}

/// What a deposit yields: the account's new (balance, debt), or the exact
/// error. Only the owner may deposit; the addition must not overflow.
pub open spec fn deposit_result(
    v: LedgerView,
    caller: Seq<char>,
    owner: Seq<char>,
    amount: u128,
) -> Result<(u128, u128), LendError> {
    if caller != owner {
        Err(LendError::Unauthorized)
    } else if !v.accounts.contains_key(owner) {
        Err(LendError::AccountDoesNotExist)
    } else if v.accounts[owner].0 + amount > u128::MAX {
        Err(LendError::MathError)
    } else {
        Ok(((v.accounts[owner].0 + amount) as u128, v.accounts[owner].1))
    }
}

pub open spec fn deposit_next(
    v: LedgerView,
    caller: Seq<char>,
    owner: Seq<char>,
    amount: u128,
) -> LedgerView {
    match deposit_result(v, caller, owner, amount) {
        Ok(a) => (LedgerView { accounts: v.accounts.insert(owner, a), ..v }),
        Err(_) => v,
    }
}

/// What a withdraw yields: the account's new (balance, debt), or the exact
/// error. Only the owner may withdraw, and only up to the current balance.
pub open spec fn withdraw_result(
    v: LedgerView,
    caller: Seq<char>,
    owner: Seq<char>,
    amount: u128,
) -> Result<(u128, u128), LendError> {
    if caller != owner {
        Err(LendError::Unauthorized)
    } else if !v.accounts.contains_key(owner) {
        Err(LendError::AccountDoesNotExist)
    } else if v.accounts[owner].0 < amount {
        Err(LendError::InsufficientFunds)
    } else {
        Ok(((v.accounts[owner].0 - amount) as u128, v.accounts[owner].1))
    }
}

pub open spec fn withdraw_next(
    v: LedgerView,
    caller: Seq<char>,
    owner: Seq<char>,
    amount: u128,
) -> LedgerView {
    match withdraw_result(v, caller, owner, amount) {
        Ok(a) => (LedgerView { accounts: v.accounts.insert(owner, a), ..v }),
        Err(_) => v,
    }
}

/// The figures of a successful borrow: the collateral the borrow locks, and
/// the new balance, debt, outstanding-borrow and locked-collateral amounts.
pub struct BorrowFacts {
    pub required_collateral: u128,
    pub balance: u128,
    pub debt: u128,
    pub borrowed: u128,
    pub locked: u128,
}

/// What a borrow yields. Only the owner may borrow. The required collateral
/// is `amount * 100 / BORROW_RATIO_PERCENT` rounded down; the balance must
/// cover it. On success the balance drops by the required collateral, the
/// debt and the borrow record for the borrow token grow by `amount`, and the
/// collateral position for the collateral token grows by the required
/// collateral.
pub open spec fn borrow_result(
    v: LedgerView,
    caller: Seq<char>,
    owner: Seq<char>,
    borrow_denom: Seq<char>,
    amount: u128,
    collateral_denom: Seq<char>,
) -> Result<BorrowFacts, LendError> {
    if caller != owner {
        Err(LendError::Unauthorized)
    } else if !v.accounts.contains_key(owner) {
        Err(LendError::AccountDoesNotExist)
    } else if amount > u128::MAX / 100 {
        Err(LendError::MathError)
    } else {
        let required = amount * 100 / (BORROW_RATIO_PERCENT as int);
        if v.accounts[owner].0 < required {
            Err(LendError::InsufficientFunds)
        } else if v.accounts[owner].1 + amount > u128::MAX {
            Err(LendError::MathError)
        } else if position_amount(v.borrows, owner, borrow_denom) + amount > u128::MAX {
            Err(LendError::MathError)
        } else if position_amount(v.collateral, owner, collateral_denom) + required
            > u128::MAX {
            Err(LendError::MathError)
        } else {
            Ok(BorrowFacts {
                required_collateral: required as u128,
                balance: (v.accounts[owner].0 - required) as u128,
                debt: (v.accounts[owner].1 + amount) as u128,
                borrowed: (position_amount(v.borrows, owner, borrow_denom) + amount) as u128,
                locked: (position_amount(v.collateral, owner, collateral_denom)
                    + required) as u128,
            })
        }
    }
}

pub open spec fn borrow_next(
    v: LedgerView,
    caller: Seq<char>,
    owner: Seq<char>,
    borrow_denom: Seq<char>,
    amount: u128,
    collateral_denom: Seq<char>,
) -> LedgerView {
    match borrow_result(v, caller, owner, borrow_denom, amount, collateral_denom) {
        Ok(f) => (LedgerView {
            accounts: v.accounts.insert(owner, (f.balance, f.debt)),
            collateral: position_set(v.collateral, owner, collateral_denom, f.locked),
            borrows: position_set(v.borrows, owner, borrow_denom, f.borrowed),
        }),
        Err(_) => v,
    }
}

/// The figures of a successful repayment: the new debt and the remaining
/// outstanding borrow for the repaid token.
pub struct RepayFacts {
    pub debt: u128,
    pub outstanding: u128,
}

/// What a repayment yields. Only the owner may repay; a repayment of zero
/// supplies no funds; the token must have a borrow record; at most the
/// outstanding amount may be repaid. On success the borrow record and the
/// debt both drop by `amount`, the record being removed when it reaches
/// zero.
pub open spec fn repay_result(
    v: LedgerView,
    caller: Seq<char>,
    owner: Seq<char>,
    denom: Seq<char>,
    amount: u128,
) -> Result<RepayFacts, LendError> {
    if caller != owner {
        Err(LendError::Unauthorized)
    } else if amount == 0 {
        Err(LendError::NoRepayment)
    } else if !v.accounts.contains_key(owner) {
        Err(LendError::AccountDoesNotExist)
    } else if !v.borrows.contains_key((owner, denom)) {
        Err(LendError::TokenNotFound)
    } else if amount > v.borrows[(owner, denom)] {
        Err(LendError::InsufficientFunds)
    } else if v.accounts[owner].1 < amount {
        Err(LendError::MathError)
    } else {
        Ok(RepayFacts {
            debt: (v.accounts[owner].1 - amount) as u128,
            outstanding: (v.borrows[(owner, denom)] - amount) as u128,
        })
    }
}

pub open spec fn repay_next(
    v: LedgerView,
    caller: Seq<char>,
    owner: Seq<char>,
    denom: Seq<char>,
    amount: u128,
) -> LedgerView {
    match repay_result(v, caller, owner, denom, amount) {
        Ok(f) => (LedgerView {
            accounts: v.accounts.insert(owner, (v.accounts[owner].0, f.debt)),
            borrows: position_set(v.borrows, owner, denom, f.outstanding),
            ..v
        }),
        Err(_) => v,
    }
}

/// What releasing locked collateral yields: the position's remaining
/// amount, or the exact error. Only the owner may release; the token must
/// have a collateral position (`TokenNotFound` otherwise); at most the
/// locked amount may be released (`InsufficientFunds` otherwise). A
/// collateral position is decremented or removed on repayment through this
/// operation, or cleared by liquidation; the released funds are handed out
/// for transfer, not credited to the balance.
pub open spec fn release_collateral_result(
    v: LedgerView,
    caller: Seq<char>,
    owner: Seq<char>,
    denom: Seq<char>,
    amount: u128,
) -> Result<u128, LendError> {
    if caller != owner {
        Err(LendError::Unauthorized)
    } else if !v.accounts.contains_key(owner) {
        Err(LendError::AccountDoesNotExist)
    } else if !v.collateral.contains_key((owner, denom)) {
        Err(LendError::TokenNotFound)
    } else if amount > v.collateral[(owner, denom)] {
        Err(LendError::InsufficientFunds)
    } else {
        Ok((v.collateral[(owner, denom)] - amount) as u128)
    }
}

pub open spec fn release_collateral_next(
    v: LedgerView,
    caller: Seq<char>,
    owner: Seq<char>,
    denom: Seq<char>,
    amount: u128,
) -> LedgerView {
    match release_collateral_result(v, caller, owner, denom, amount) {
        Ok(rest) => (LedgerView {
            collateral: position_set(v.collateral, owner, denom, rest),
            ..v
        }),
        Err(_) => v,
    }
}

/// The figures of a liquidation: the outstanding borrow that is cleared and
/// the collateral that is seized.
pub struct LiquidationFacts {
    pub borrowed: u128,
    pub seized: u128,
    pub debt: u128,
}

/// What liquidating a borrower yields: the borrow record for the debt token
/// and the collateral position for the collateral token are both cleared,
/// the borrower's debt drops by the cleared amount, and the cleared figures
/// are reported so the collateral can be transferred to the liquidator. This
/// is the only operation that touches another account's records.
pub open spec fn liquidate_result(
    v: LedgerView,
    borrower: Seq<char>,
    debt_denom: Seq<char>,
    collateral_denom: Seq<char>,
) -> Result<LiquidationFacts, LendError> {
    if !v.accounts.contains_key(borrower) {
        Err(LendError::AccountDoesNotExist)
    } else if v.accounts[borrower].1 < position_amount(v.borrows, borrower, debt_denom) {
        Err(LendError::MathError)
    } else {
        Ok(LiquidationFacts {
            borrowed: position_amount(v.borrows, borrower, debt_denom),
            seized: position_amount(v.collateral, borrower, collateral_denom),
            debt: (v.accounts[borrower].1 - position_amount(
                v.borrows,
                borrower,
                debt_denom,
            )) as u128,
        })
    }
}

pub open spec fn liquidate_next(
    v: LedgerView,
    borrower: Seq<char>,
    debt_denom: Seq<char>,
    collateral_denom: Seq<char>,
) -> LedgerView {
    match liquidate_result(v, borrower, debt_denom, collateral_denom) {
        Ok(f) => (LedgerView {
            accounts: v.accounts.insert(borrower, (v.accounts[borrower].0, f.debt)),
            collateral: v.collateral.remove((borrower, collateral_denom)),
            borrows: v.borrows.remove((borrower, debt_denom)),
        }),
        Err(_) => v,
    }
}

/// What a liquidation reports: who forced the closure, whose records were
/// cleared, and the cleared amounts per token.
#[derive(Debug, Clone)]
pub struct LiquidationReceipt {
    pub liquidator: String,
    pub borrower: String,
    pub debt_token: String,
    pub debt_amount: u128,
    pub collateral_token: String,
    pub collateral_amount: u128,
}

/// Whether an address fits the 16-bit length prefix under which the
/// position stores encode the owner part of their keys. The operations that
/// touch positions require this machine limit of their owner argument; a
/// caller holding an arbitrary address establishes it with this test.
pub fn address_fits_keys(address: &str) -> (r: bool)
    ensures
        r == (address.spec_bytes().len() <= 0xFFFF),
{
    address.as_bytes().len() <= 0xFFFF
}

/// The account ledger. It owns the account records exclusively; the position
/// stores are scoped to accounts by key.
pub struct Ledger {
    accounts: cosmwasm_std::MemoryStorage,
    collateral: cosmwasm_std::MemoryStorage,
    borrows: cosmwasm_std::MemoryStorage,
}

impl View for Ledger {
    type V = LedgerView;

    closed spec fn view(&self) -> LedgerView {
        LedgerView {
            accounts: store::accounts_of(self.accounts),
            collateral: store::positions_of(self.collateral),
            borrows: store::positions_of(self.borrows),
        }
    }
}

impl Ledger {
    /// A ledger with no accounts and no positions.
    pub fn new() -> (l: Ledger)
        ensures
            forall|o: Seq<char>| !l@.accounts.contains_key(o),
            forall|k: (Seq<char>, Seq<char>)| !l@.collateral.contains_key(k),
            forall|k: (Seq<char>, Seq<char>)| !l@.borrows.contains_key(k),
    {
        Ledger {
            accounts: store::db_new(),
            collateral: store::db_new(),
            borrows: store::db_new(),
        }
    }

    /// Creates the account record for `owner` with zero balance and debt.
    pub fn create_account(&mut self, owner: &str) -> (r: Result<OpRecord, LendError>)
        ensures
            final(self)@ == create_account_next(old(self)@, owner@),
            (match (r, create_account_result(old(self)@, owner@)) {
                (Ok(rec), Ok(a)) => rec.action == OpAction::CreateAccount && rec.actor@ == owner@
                    && rec.token is None && rec.amount == 0 && rec.amount_before == 0
                    && rec.amount_after == 0,
                (Err(e), Err(e2)) => e == e2,
                _ => false,
            }),
    {
        if store::account_load(&self.accounts, owner).is_some() {
            return Err(LendError::AccountExists);
        }
        store::account_save(&mut self.accounts, owner, 0, 0);
        Ok(OpRecord {
            action: OpAction::CreateAccount,
            actor: owner.to_owned(),
            token: None,
            amount: 0,
            amount_before: 0,
            amount_after: 0,
        })
    }

    /// Removes the account record for `owner`. An account with outstanding
    /// debt cannot be deleted.
    pub fn delete_account(&mut self, owner: &str) -> (r: Result<OpRecord, LendError>)
        ensures
            final(self)@ == delete_account_next(old(self)@, owner@),
            (match (r, delete_account_result(old(self)@, owner@)) {
                (Ok(rec), Ok(_)) => rec.action == OpAction::DeleteAccount && rec.actor@ == owner@
                    && rec.token is None && rec.amount == 0 && rec.amount_before == 0
                    && rec.amount_after == 0,
                (Err(e), Err(e2)) => e == e2,
                _ => false,
            }),
    {
        match store::account_load(&self.accounts, owner) {
            None => Err(LendError::AccountDoesNotExist),
            Some((_balance, debt)) => {
                if debt != 0 {
                    return Err(LendError::InsufficientFunds);
                }
                store::account_remove(&mut self.accounts, owner);
                Ok(OpRecord {
                    action: OpAction::DeleteAccount,
                    actor: owner.to_owned(),
                    token: None,
                    amount: 0,
                    amount_before: 0,
                    amount_after: 0,
                })
            },
        }
    }

    /// Increases the owner's balance by `amount`. The token is recorded for
    /// observability; the balance is one total across all tokens.
    pub fn deposit(&mut self, caller: &str, owner: &str, token: &Token, amount: u128) -> (r:
        Result<OpRecord, LendError>)
        ensures
            final(self)@ == deposit_next(old(self)@, caller@, owner@, amount),
            (match (r, deposit_result(old(self)@, caller@, owner@, amount)) {
                (Ok(rec), Ok(a)) => rec.action == OpAction::Deposit && rec.actor@ == caller@ && (
                rec.token matches Some(t) && t@ == token.denom_spec()) && rec.amount == amount
                    && rec.amount_before == old(self)@.accounts[owner@].0 && rec.amount_after
                    == a.0,
                (Err(e), Err(e2)) => e == e2,
                _ => false,
            }),
    {
        if !str_eq(caller, owner) {
            return Err(LendError::Unauthorized);
        }
        match store::account_load(&self.accounts, owner) {
            None => Err(LendError::AccountDoesNotExist),
            Some((balance, debt)) => {
                if amount > u128::MAX - balance {
                    return Err(LendError::MathError);
                }
                let new_balance: u128 = balance + amount;
                store::account_save(&mut self.accounts, owner, new_balance, debt);
                Ok(OpRecord {
                    action: OpAction::Deposit,
                    actor: caller.to_owned(),
                    token: Some(token.denom()),
                    amount,
                    amount_before: balance,
                    amount_after: new_balance,
                })
            },
        }
    }

    /// Decreases the owner's balance by `amount`, rejecting a withdraw of
    /// more than the current balance.
    pub fn withdraw(&mut self, caller: &str, owner: &str, token: &Token, amount: u128) -> (r:
        Result<OpRecord, LendError>)
        ensures
            final(self)@ == withdraw_next(old(self)@, caller@, owner@, amount),
            (match (r, withdraw_result(old(self)@, caller@, owner@, amount)) {
                (Ok(rec), Ok(a)) => rec.action == OpAction::Withdraw && rec.actor@ == caller@ && (
                rec.token matches Some(t) && t@ == token.denom_spec()) && rec.amount == amount
                    && rec.amount_before == old(self)@.accounts[owner@].0 && rec.amount_after
                    == a.0,
                (Err(e), Err(e2)) => e == e2,
                _ => false,
            }),
    {
        if !str_eq(caller, owner) {
            return Err(LendError::Unauthorized);
        }
        match store::account_load(&self.accounts, owner) {
            None => Err(LendError::AccountDoesNotExist),
            Some((balance, debt)) => {
                if balance < amount {
                    return Err(LendError::InsufficientFunds);
                }
                let new_balance: u128 = balance - amount;
                store::account_save(&mut self.accounts, owner, new_balance, debt);
                Ok(OpRecord {
                    action: OpAction::Withdraw,
                    actor: caller.to_owned(),
                    token: Some(token.denom()),
                    amount,
                    amount_before: balance,
                    amount_after: new_balance,
                })
            },
        }
    }

    /// Borrows `amount` of `borrow_token` against collateral in
    /// `collateral_token`, locking `amount * 100 / BORROW_RATIO_PERCENT`
    /// units of the balance as collateral. The owner address must fit the
    /// 16-bit length prefix of the position keys, a machine limit of the
    /// storage engine.
    pub fn borrow(
        &mut self,
        caller: &str,
        owner: &str,
        borrow_token: &Token,
        amount: u128,
        collateral_token: &Token,
    ) -> (r: Result<OpRecord, LendError>)
        requires
            owner.spec_bytes().len() <= 0xFFFF,
        ensures
            final(self)@ == borrow_next(
                old(self)@,
                caller@,
                owner@,
                borrow_token.denom_spec(),
                amount,
                collateral_token.denom_spec(),
            ),
            (match (
                r,
                borrow_result(
                    old(self)@,
                    caller@,
                    owner@,
                    borrow_token.denom_spec(),
                    amount,
                    collateral_token.denom_spec(),
                ),
            ) {
                (Ok(rec), Ok(f)) => rec.action == OpAction::Borrow && rec.actor@ == caller@ && (
                rec.token matches Some(t) && t@ == borrow_token.denom_spec()) && rec.amount
                    == amount && rec.amount_before == old(self)@.accounts[owner@].1
                    && rec.amount_after == f.debt,
                (Err(e), Err(e2)) => e == e2,
                _ => false,
            }),
    {
        if !str_eq(caller, owner) {
            return Err(LendError::Unauthorized);
        }
        let acct = store::account_load(&self.accounts, owner);
        if acct.is_none() {
            return Err(LendError::AccountDoesNotExist);
        }
        let (balance, debt) = acct.unwrap();
        if amount > u128::MAX / 100 {
            return Err(LendError::MathError);
        }
        let required: u128 = amount * 100 / BORROW_RATIO_PERCENT;
        if balance < required {
            return Err(LendError::InsufficientFunds);
        }
        if amount > u128::MAX - debt {
            return Err(LendError::MathError);
        }
        let borrow_denom = borrow_token.denom();
        let collateral_denom = collateral_token.denom();
        let outstanding: u128 = match store::position_load(
            &self.borrows,
            owner,
            borrow_denom.as_str(),
        ) {
            Some(b) => b,
            None => 0,
        };
        if amount > u128::MAX - outstanding {
            return Err(LendError::MathError);
        }
        let locked: u128 = match store::position_load(
            &self.collateral,
            owner,
            collateral_denom.as_str(),
        ) {
            Some(c) => c,
            None => 0,
        };
        if required > u128::MAX - locked {
            return Err(LendError::MathError);
        }
        let new_balance: u128 = balance - required;
        let new_debt: u128 = debt + amount;
        let new_outstanding: u128 = outstanding + amount;
        let new_locked: u128 = locked + required;
        store::account_save(&mut self.accounts, owner, new_balance, new_debt);
        if new_outstanding > 0 {
            store::position_save(&mut self.borrows, owner, borrow_denom.as_str(), new_outstanding);
        } else {
            store::position_remove(&mut self.borrows, owner, borrow_denom.as_str());
        }
        if new_locked > 0 {
            store::position_save(
                &mut self.collateral,
                owner,
                collateral_denom.as_str(),
                new_locked,
            );
        } else {
            store::position_remove(&mut self.collateral, owner, collateral_denom.as_str());
        }
        Ok(OpRecord {
            action: OpAction::Borrow,
            actor: caller.to_owned(),
            token: Some(borrow_denom),
            amount,
            amount_before: debt,
            amount_after: new_debt,
        })
    }

    /// Repays `amount` of the borrow record for `token`, reducing the debt
    /// by the same amount and removing the record when it reaches zero. The
    /// owner address must fit the 16-bit length prefix of the position
    /// keys, a machine limit of the storage engine.
    pub fn repay(&mut self, caller: &str, owner: &str, token: &Token, amount: u128) -> (r:
        Result<OpRecord, LendError>)
        requires
            owner.spec_bytes().len() <= 0xFFFF,
        ensures
            final(self)@ == repay_next(old(self)@, caller@, owner@, token.denom_spec(), amount),
            (match (r, repay_result(old(self)@, caller@, owner@, token.denom_spec(), amount)) {
                (Ok(rec), Ok(f)) => rec.action == OpAction::Repay && rec.actor@ == caller@ && (
                rec.token matches Some(t) && t@ == token.denom_spec()) && rec.amount == amount
                    && rec.amount_before == old(self)@.accounts[owner@].1 && rec.amount_after
                    == f.debt,
                (Err(e), Err(e2)) => e == e2,
                _ => false,
            }),
    {
        if !str_eq(caller, owner) {
            return Err(LendError::Unauthorized);
        }
        if amount == 0 {
            return Err(LendError::NoRepayment);
        }
        let acct = store::account_load(&self.accounts, owner);
        if acct.is_none() {
            return Err(LendError::AccountDoesNotExist);
        }
        let (balance, debt) = acct.unwrap();
        let denom = token.denom();
        let outstanding: u128 = match store::position_load(&self.borrows, owner, denom.as_str()) {
            Some(b) => b,
            None => {
                return Err(LendError::TokenNotFound);
            },
        };
        if amount > outstanding {
            return Err(LendError::InsufficientFunds);
        }
        if debt < amount {
            return Err(LendError::MathError);
        }
        let new_debt: u128 = debt - amount;
        let new_outstanding: u128 = outstanding - amount;
        store::account_save(&mut self.accounts, owner, balance, new_debt);
        if new_outstanding > 0 {
            store::position_save(&mut self.borrows, owner, denom.as_str(), new_outstanding);
        } else {
            store::position_remove(&mut self.borrows, owner, denom.as_str());
        }
        Ok(OpRecord {
            action: OpAction::Repay,
            actor: caller.to_owned(),
            token: Some(denom),
            amount,
            amount_before: debt,
            amount_after: new_debt,
        })
    }

    /// Releases `amount` of the collateral `owner` has locked in `token`,
    /// removing the position when it reaches zero, and reports the released
    /// figure so the funds can be returned by transfer. This is the
    /// repayment-side way a collateral position is decremented or removed;
    /// the other is liquidation. The owner address must fit the 16-bit
    /// length prefix of the position keys, a machine limit of the storage
    /// engine.
    pub fn release_collateral(&mut self, caller: &str, owner: &str, token: &Token, amount: u128)
        -> (r: Result<OpRecord, LendError>)
        requires
            owner.spec_bytes().len() <= 0xFFFF,
        ensures
            final(self)@ == release_collateral_next(
                old(self)@,
                caller@,
                owner@,
                token.denom_spec(),
                amount,
            ),
            (match (
                r,
                release_collateral_result(old(self)@, caller@, owner@, token.denom_spec(), amount),
            ) {
                (Ok(rec), Ok(rest)) => rec.action == OpAction::ReleaseCollateral && rec.actor@
                    == caller@ && (rec.token matches Some(t) && t@ == token.denom_spec())
                    && rec.amount == amount && rec.amount_before == old(self)@.collateral[(
                    owner@,
                    token.denom_spec(),
                )] && rec.amount_after == rest,
                (Err(e), Err(e2)) => e == e2,
                _ => false,
            }),
    {
        if !str_eq(caller, owner) {
            return Err(LendError::Unauthorized);
        }
        if store::account_load(&self.accounts, owner).is_none() {
            return Err(LendError::AccountDoesNotExist);
        }
        let denom = token.denom();
        match store::position_load(&self.collateral, owner, denom.as_str()) {
            None => Err(LendError::TokenNotFound),
            Some(locked) => {
                if amount > locked {
                    return Err(LendError::InsufficientFunds);
                }
                let rest: u128 = locked - amount;
                if rest > 0 {
                    store::position_save(&mut self.collateral, owner, denom.as_str(), rest);
                } else {
                    store::position_remove(&mut self.collateral, owner, denom.as_str());
                }
                Ok(OpRecord {
                    action: OpAction::ReleaseCollateral,
                    actor: caller.to_owned(),
                    token: Some(denom),
                    amount,
                    amount_before: locked,
                    amount_after: rest,
                })
            },
        }
    }

    /// Forces the closure of a borrower's position: clears the borrow record
    /// for `debt_token` and the collateral position for `collateral_token`,
    /// and reports the seized collateral for transfer to the liquidator. The
    /// borrower address must fit the 16-bit length prefix of the position
    /// keys, a machine limit of the storage engine.
    pub fn liquidate(
        &mut self,
        liquidator: &str,
        borrower: &str,
        debt_token: &Token,
        collateral_token: &Token,
    ) -> (r: Result<LiquidationReceipt, LendError>)
        requires
            borrower.spec_bytes().len() <= 0xFFFF,
        ensures
            final(self)@ == liquidate_next(
                old(self)@,
                borrower@,
                debt_token.denom_spec(),
                collateral_token.denom_spec(),
            ),
            (match (
                r,
                liquidate_result(
                    old(self)@,
                    borrower@,
                    debt_token.denom_spec(),
                    collateral_token.denom_spec(),
                ),
            ) {
                (Ok(rec), Ok(f)) => rec.liquidator@ == liquidator@ && rec.borrower@ == borrower@
                    && rec.debt_token@ == debt_token.denom_spec() && rec.debt_amount == f.borrowed
                    && rec.collateral_token@ == collateral_token.denom_spec()
                    && rec.collateral_amount == f.seized,
                (Err(e), Err(e2)) => e == e2,
                _ => false,
            }),
    {
        let acct = store::account_load(&self.accounts, borrower);
        if acct.is_none() {
            return Err(LendError::AccountDoesNotExist);
        }
        let (balance, debt) = acct.unwrap();
        let debt_denom = debt_token.denom();
        let collateral_denom = collateral_token.denom();
        let borrowed: u128 = match store::position_load(&self.borrows, borrower, debt_denom.as_str())
            {
            Some(b) => b,
            None => 0,
        };
        let seized: u128 = match store::position_load(
            &self.collateral,
            borrower,
            collateral_denom.as_str(),
        ) {
            Some(c) => c,
            None => 0,
        };
        if debt < borrowed {
            return Err(LendError::MathError);
        }
        let new_debt: u128 = debt - borrowed;
        store::account_save(&mut self.accounts, borrower, balance, new_debt);
        store::position_remove(&mut self.borrows, borrower, debt_denom.as_str());
        store::position_remove(&mut self.collateral, borrower, collateral_denom.as_str());
        Ok(LiquidationReceipt {
            liquidator: liquidator.to_owned(),
            borrower: borrower.to_owned(),
            debt_token: debt_denom,
            debt_amount: borrowed,
            collateral_token: collateral_denom,
            collateral_amount: seized,
        })
    }

    /// The account snapshot for `address`, if a record exists.
    pub fn get_account(&self, address: &str) -> (r: Option<Account>)
        ensures
            match r {
                Some(a) => self@.accounts.contains_key(address@) && a.owner@ == address@
                    && a.balance == self@.accounts[address@].0 && a.debt
                    == self@.accounts[address@].1,
                None => !self@.accounts.contains_key(address@),
            },
    {
        match store::account_load(&self.accounts, address) {
            None => None,
            Some((balance, debt)) => Some(
                Account { owner: address.to_owned(), balance, debt },
            ),
        }
    }

    /// The balance of `address`, if a record exists.
    pub fn get_balance(&self, address: &str) -> (r: Option<GetBalanceResponse>)
        ensures
            match r {
                Some(b) => self@.accounts.contains_key(address@) && b.balance
                    == self@.accounts[address@].0,
                None => !self@.accounts.contains_key(address@),
            },
    {
        match store::account_load(&self.accounts, address) {
            None => None,
            Some((balance, _debt)) => Some(GetBalanceResponse { balance }),
        }
    }

    /// The collateral locked by `owner` in `token`, if any position exists.
    /// The owner address must fit the 16-bit length prefix of the position
    /// keys, a machine limit of the storage engine.
    pub fn get_collateral(&self, owner: &str, token: &Token) -> (r: Option<u128>)
        requires
            owner.spec_bytes().len() <= 0xFFFF,
        ensures
            r == store::map_get(self@.collateral, (owner@, token.denom_spec())),
    {
        let denom = token.denom();
        store::position_load(&self.collateral, owner, denom.as_str())
    }

    /// The outstanding borrow of `owner` in `token`, if any record exists.
    /// The owner address must fit the 16-bit length prefix of the position
    /// keys, a machine limit of the storage engine.
    pub fn get_borrowed(&self, owner: &str, token: &Token) -> (r: Option<u128>)
        requires
            owner.spec_bytes().len() <= 0xFFFF,
        ensures
            r == store::map_get(self@.borrows, (owner@, token.denom_spec())),
    {
        let denom = token.denom();
        store::position_load(&self.borrows, owner, denom.as_str())
    }
}

} // verus!
