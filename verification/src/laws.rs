//! Laws of the ledger: properties that relate several operations, stated
//! over the same spec-level transitions that the executable operations are
//! proved to follow.

use vstd::prelude::*;

use crate::error::LendError;
use crate::ledger::BORROW_RATIO_PERCENT;
use crate::ledger::LedgerView;
use crate::ledger::borrow_next;
use crate::ledger::borrow_result;
use crate::ledger::create_account_next;
use crate::ledger::delete_account_next;
use crate::ledger::deposit_next;
use crate::ledger::deposit_result;
use crate::ledger::liquidate_next;
use crate::ledger::position_amount;
use crate::ledger::release_collateral_next;
use crate::ledger::repay_next;
use crate::ledger::repay_result;
use crate::ledger::withdraw_next;
use crate::ledger::withdraw_result;
use crate::oracle::fetch_price_result;
use crate::oracle::fresh_spec;

verus! {

/// Balances and debts are never negative: amounts are unsigned, so no
/// representation of a negative value exists, and every transition that
/// decreases an amount first checks that the subtraction cannot underflow
/// and rejects the operation otherwise.
pub proof fn lemma_amounts_nonnegative(v: LedgerView, owner: Seq<char>)
    requires
        v.accounts.contains_key(owner),
    ensures
        v.accounts[owner].0 >= 0,
        v.accounts[owner].1 >= 0,
{
}

/// A deposit followed by a withdraw of the same amount returns the ledger,
/// and in particular the owner's balance, to its original value.
pub proof fn lemma_deposit_withdraw_round_trip(
    v: LedgerView,
    caller: Seq<char>,
    owner: Seq<char>,
    amount: u128,
)
    requires
        deposit_result(v, caller, owner, amount) is Ok,
    ensures
        withdraw_result(deposit_next(v, caller, owner, amount), caller, owner, amount) is Ok,
        withdraw_next(deposit_next(v, caller, owner, amount), caller, owner, amount).accounts[owner]
            == v.accounts[owner],
        withdraw_next(deposit_next(v, caller, owner, amount), caller, owner, amount) =~= v,
{
    let v1 = deposit_next(v, caller, owner, amount);
    let v2 = withdraw_next(v1, caller, owner, amount);
    assert(v2.accounts =~= v.accounts);
}

/// A borrow followed by a full repayment of the same amount returns the
/// debt to its pre-borrow value and removes the borrow record, where the
/// token had no borrow record before.
pub proof fn lemma_borrow_repay_round_trip(
    v: LedgerView,
    caller: Seq<char>,
    owner: Seq<char>,
    borrow_denom: Seq<char>,
    amount: u128,
    collateral_denom: Seq<char>,
)
    requires
        borrow_result(v, caller, owner, borrow_denom, amount, collateral_denom) is Ok,
        amount > 0,
        !v.borrows.contains_key((owner, borrow_denom)),
    ensures
        repay_result(
            borrow_next(v, caller, owner, borrow_denom, amount, collateral_denom),
            caller,
            owner,
            borrow_denom,
            amount,
        ) is Ok,
        repay_next(
            borrow_next(v, caller, owner, borrow_denom, amount, collateral_denom),
            caller,
            owner,
            borrow_denom,
            amount,
        ).accounts[owner].1 == v.accounts[owner].1,
        !repay_next(
            borrow_next(v, caller, owner, borrow_denom, amount, collateral_denom),
            caller,
            owner,
            borrow_denom,
            amount,
        ).borrows.contains_key((owner, borrow_denom)),
{
}

/// Every successful borrow locks exactly `amount * 100 / BORROW_RATIO_PERCENT`
/// units of collateral (rounded down): the collateral position for the
/// collateral token grows by that figure and the balance drops by it.
pub proof fn lemma_borrow_locks_exact_collateral(
    v: LedgerView,
    caller: Seq<char>,
    owner: Seq<char>,
    borrow_denom: Seq<char>,
    amount: u128,
    collateral_denom: Seq<char>,
)
    requires
        borrow_result(v, caller, owner, borrow_denom, amount, collateral_denom) is Ok,
    ensures
        borrow_result(v, caller, owner, borrow_denom, amount, collateral_denom) matches Ok(f)
            && f.required_collateral == amount * 100 / (BORROW_RATIO_PERCENT as int)
            && position_amount(
            borrow_next(v, caller, owner, borrow_denom, amount, collateral_denom).collateral,
            owner,
            collateral_denom,
        ) == position_amount(v.collateral, owner, collateral_denom) + f.required_collateral
            && borrow_next(
            v,
            caller,
            owner,
            borrow_denom,
            amount,
            collateral_denom,
        ).accounts[owner].0 == v.accounts[owner].0 - f.required_collateral,
{
}

/// A withdraw of more than the current balance leaves the ledger unchanged
/// and reports `InsufficientFunds`.
pub proof fn lemma_withdraw_insufficient(
    v: LedgerView,
    caller: Seq<char>,
    owner: Seq<char>,
    amount: u128,
)
    requires
        caller == owner,
        v.accounts.contains_key(owner),
        amount > v.accounts[owner].0,
    ensures
        withdraw_result(v, caller, owner, amount) matches Err(e) && e
            == LendError::InsufficientFunds,
        withdraw_next(v, caller, owner, amount) == v,
{
}

/// A repayment that references a token with no borrow record leaves the
/// ledger unchanged and reports `TokenNotFound`.
pub proof fn lemma_repay_unknown_token(
    v: LedgerView,
    caller: Seq<char>,
    owner: Seq<char>,
    denom: Seq<char>,
    amount: u128,
)
    requires
        caller == owner,
        amount > 0,
        v.accounts.contains_key(owner),
        !v.borrows.contains_key((owner, denom)),
    ensures
        repay_result(v, caller, owner, denom, amount) matches Err(e) && e
            == LendError::TokenNotFound,
        repay_next(v, caller, owner, denom, amount) == v,
{
}

/// No position map holds a zero-value entry: a missing record and a zero
/// record are distinguishable, so zero records never persist.
pub open spec fn no_zero_positions(v: LedgerView) -> bool {
    &&& forall|k: (Seq<char>, Seq<char>)| v.borrows.contains_key(k) ==> v.borrows[k] > 0
    &&& forall|k: (Seq<char>, Seq<char>)| v.collateral.contains_key(k) ==> v.collateral[k] > 0
}

/// Every transition keeps the rule that no zero-value position entry
/// persists: a position that reaches zero is removed, never stored as zero.
pub proof fn lemma_no_zero_positions_preserved(
    v: LedgerView,
    caller: Seq<char>,
    owner: Seq<char>,
    borrow_denom: Seq<char>,
    amount: u128,
    collateral_denom: Seq<char>,
)
    requires
        no_zero_positions(v),
    ensures
        no_zero_positions(create_account_next(v, owner)),
        no_zero_positions(delete_account_next(v, owner)),
        no_zero_positions(deposit_next(v, caller, owner, amount)),
        no_zero_positions(withdraw_next(v, caller, owner, amount)),
        no_zero_positions(borrow_next(v, caller, owner, borrow_denom, amount, collateral_denom)),
        no_zero_positions(repay_next(v, caller, owner, borrow_denom, amount)),
        no_zero_positions(release_collateral_next(v, caller, owner, collateral_denom, amount)),
        no_zero_positions(liquidate_next(v, owner, borrow_denom, collateral_denom)),
{
}

/// A price record of which either part was published outside the freshness
/// window is not served: the query reports `PriceUnavailable`, never a stale
/// value.
pub proof fn lemma_stale_price_unavailable(
    prices: Map<Seq<char>, (u128, u128, u64, u64)>,
    symbol: Seq<char>,
    now: u64,
)
    requires
        !prices.contains_key(symbol) || !fresh_spec(prices[symbol].2, now) || !fresh_spec(
            prices[symbol].3,
            now,
        ),
    ensures
        fetch_price_result(prices, symbol, now) matches Err(e) && e == LendError::PriceUnavailable,
{
}

} // verus!
