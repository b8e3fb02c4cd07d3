//! The consistency invariant of the ledger: every account's debt equals the
//! sum of its outstanding borrow records, no borrow record is zero, and
//! every borrow record belongs to an existing account. Each transition
//! updates the debt and the borrow record together, so no operation ever
//! leaves the two inconsistent with each other.

use vstd::prelude::*;
use vstd::set::fold::is_fun_commutative;
use vstd::set::fold::lemma_finite_set_induct;
use vstd::set::fold::lemma_fold_empty;
use vstd::set::fold::lemma_fold_insert;

use crate::error::LendError;
use crate::ledger::LedgerView;
use crate::ledger::borrow_next;
use crate::ledger::borrow_result;
use crate::ledger::create_account_next;
use crate::ledger::delete_account_next;
use crate::ledger::delete_account_result;
use crate::ledger::deposit_next;
use crate::ledger::liquidate_next;
use crate::ledger::liquidate_result;
use crate::ledger::position_amount;
use crate::ledger::position_set;
use crate::ledger::release_collateral_next;
use crate::ledger::repay_next;
use crate::ledger::repay_result;
use crate::ledger::withdraw_next;

verus! {

/// The fold step that accumulates the amounts a position map holds.
pub open spec fn add_amount(m: Map<(Seq<char>, Seq<char>), u128>) -> spec_fn(
    int,
    (Seq<char>, Seq<char>),
) -> int {
    |acc: int, k: (Seq<char>, Seq<char>)| acc + m[k]
}

/// The borrow-record keys of one owner.
pub open spec fn owner_keys(m: Map<(Seq<char>, Seq<char>), u128>, owner: Seq<char>) -> Set<
    (Seq<char>, Seq<char>),
> {
    m.dom().filter(|k: (Seq<char>, Seq<char>)| k.0 == owner)
}

/// The total outstanding borrows of one owner across all denominations.
pub open spec fn owner_debt(m: Map<(Seq<char>, Seq<char>), u128>, owner: Seq<char>) -> int {
    owner_keys(m, owner).fold(0int, add_amount(m))
}

/// A well-formed ledger state: finitely many borrow records, none of them
/// zero, each belonging to an existing account, and every account's debt
/// equal to the sum of its borrow records.
pub open spec fn ledger_wf(v: LedgerView) -> bool {
    &&& v.borrows.dom().finite()
    &&& (forall|k: (Seq<char>, Seq<char>)| v.borrows.contains_key(k) ==> v.borrows[k] > 0)
    &&& (forall|k: (Seq<char>, Seq<char>)|
        v.borrows.contains_key(k) ==> v.accounts.contains_key(k.0))
    &&& (forall|o: Seq<char>|
        v.accounts.contains_key(o) ==> v.accounts[o].1 == owner_debt(v.borrows, o))
}

proof fn lemma_add_amount_commutative(m: Map<(Seq<char>, Seq<char>), u128>)
    ensures
        is_fun_commutative(add_amount(m)),
{
    let f = add_amount(m);
    assert forall|a1: (Seq<char>, Seq<char>), a2: (Seq<char>, Seq<char>), b: int| #[trigger]
        f(f(b, a2), a1) == f(f(b, a1), a2) by {}
}

/// Two maps that agree on a finite key set give it the same amount sum.
proof fn lemma_sum_congruent(
    m1: Map<(Seq<char>, Seq<char>), u128>,
    m2: Map<(Seq<char>, Seq<char>), u128>,
    s: Set<(Seq<char>, Seq<char>)>,
)
    requires
        s.finite(),
        forall|k: (Seq<char>, Seq<char>)| s.contains(k) ==> m1[k] == m2[k],
    ensures
        s.fold(0int, add_amount(m1)) == s.fold(0int, add_amount(m2)),
{
    lemma_add_amount_commutative(m1);
    lemma_add_amount_commutative(m2);
    let pred = |s2: Set<(Seq<char>, Seq<char>)>|
        (forall|k: (Seq<char>, Seq<char>)| s2.contains(k) ==> m1[k] == m2[k]) ==> s2.fold(
            0int,
            add_amount(m1),
        ) == s2.fold(0int, add_amount(m2));
    assert(pred(Set::empty())) by {
        lemma_fold_empty(0int, add_amount(m1));
        lemma_fold_empty(0int, add_amount(m2));
    }
    assert forall|s2: Set<(Seq<char>, Seq<char>)>, a: (Seq<char>, Seq<char>)|
        pred(s2) && s2.finite() && !s2.contains(a) implies #[trigger] pred(s2.insert(a)) by {
        if forall|k: (Seq<char>, Seq<char>)| s2.insert(a).contains(k) ==> m1[k] == m2[k] {
            assert(forall|k: (Seq<char>, Seq<char>)| s2.contains(k) ==> m1[k] == m2[k]);
            lemma_fold_insert(s2, 0int, add_amount(m1), a);
            lemma_fold_insert(s2, 0int, add_amount(m2), a);
            assert(s2.insert(a).contains(a));
        }
    }
    lemma_finite_set_induct(s, pred);
}

/// An amount sum splits into the sum without one contained key plus that
/// key's amount.
proof fn lemma_sum_split(
    m: Map<(Seq<char>, Seq<char>), u128>,
    s: Set<(Seq<char>, Seq<char>)>,
    k: (Seq<char>, Seq<char>),
)
    requires
        s.finite(),
        s.contains(k),
    ensures
        s.fold(0int, add_amount(m)) == s.remove(k).fold(0int, add_amount(m)) + m[k],
{
    lemma_add_amount_commutative(m);
    lemma_fold_insert(s.remove(k), 0int, add_amount(m), k);
    assert(s.remove(k).insert(k) =~= s);
}

/// An amount sum over unsigned amounts is never negative.
proof fn lemma_sum_nonneg(m: Map<(Seq<char>, Seq<char>), u128>, s: Set<(Seq<char>, Seq<char>)>)
    requires
        s.finite(),
    ensures
        s.fold(0int, add_amount(m)) >= 0,
{
    lemma_add_amount_commutative(m);
    let pred = |s2: Set<(Seq<char>, Seq<char>)>| s2.fold(0int, add_amount(m)) >= 0;
    assert(pred(Set::empty())) by {
        lemma_fold_empty(0int, add_amount(m));
    }
    assert forall|s2: Set<(Seq<char>, Seq<char>)>, a: (Seq<char>, Seq<char>)|
        pred(s2) && s2.finite() && !s2.contains(a) implies #[trigger] pred(s2.insert(a)) by {
        lemma_fold_insert(s2, 0int, add_amount(m), a);
    }
    lemma_finite_set_induct(s, pred);
}

/// An amount sum is at least any one contained amount.
proof fn lemma_sum_at_least(
    m: Map<(Seq<char>, Seq<char>), u128>,
    s: Set<(Seq<char>, Seq<char>)>,
    k: (Seq<char>, Seq<char>),
)
    requires
        s.finite(),
        s.contains(k),
    ensures
        s.fold(0int, add_amount(m)) >= m[k],
{
    lemma_sum_split(m, s, k);
    lemma_sum_nonneg(m, s.remove(k));
}

/// An account's debt covers each of its single borrow records.
pub proof fn lemma_debt_covers_record(v: LedgerView, owner: Seq<char>, denom: Seq<char>)
    requires
        ledger_wf(v),
        v.accounts.contains_key(owner),
        v.borrows.contains_key((owner, denom)),
    ensures
        v.accounts[owner].1 >= v.borrows[(owner, denom)],
{
    let is_owner = |k: (Seq<char>, Seq<char>)| k.0 == owner;
    v.borrows.dom().lemma_len_filter(is_owner);
    assert(owner_keys(v.borrows, owner) =~= v.borrows.dom().filter(is_owner));
    assert(owner_keys(v.borrows, owner).contains((owner, denom)));
    lemma_sum_at_least(v.borrows, owner_keys(v.borrows, owner), (owner, denom));
    assert(v.accounts[owner].1 == owner_debt(v.borrows, owner));
    assert(owner_debt(v.borrows, owner) >= v.borrows[(owner, denom)]);
}

/// How the per-owner totals change when one record of one owner is set:
/// that owner's total moves from the old amount of the record to the new
/// one, and every other owner's total is untouched.
proof fn lemma_owner_debt_set(
    m: Map<(Seq<char>, Seq<char>), u128>,
    owner: Seq<char>,
    denom: Seq<char>,
    amount: u128,
)
    requires
        m.dom().finite(),
    ensures
        position_set(m, owner, denom, amount).dom().finite(),
        owner_debt(position_set(m, owner, denom, amount), owner) == owner_debt(m, owner)
            - position_amount(m, owner, denom) + amount,
        forall|o2: Seq<char>|
            o2 != owner ==> owner_debt(position_set(m, owner, denom, amount), o2) == owner_debt(
                m,
                o2,
            ),
        forall|k: (Seq<char>, Seq<char>)|
            position_set(m, owner, denom, amount).contains_key(k) ==> (m.contains_key(k) || k == (
            owner,
            denom,
        )),
        forall|k: (Seq<char>, Seq<char>)|
            position_set(m, owner, denom, amount).contains_key(k) && k != (owner, denom)
                ==> position_set(m, owner, denom, amount)[k] == m[k],
        amount > 0 ==> position_set(m, owner, denom, amount)[(owner, denom)] == amount,
        amount == 0 ==> !position_set(m, owner, denom, amount).contains_key((owner, denom)),
{
    let key = (owner, denom);
    let mp = position_set(m, owner, denom, amount);
    let is_owner = |k: (Seq<char>, Seq<char>)| k.0 == owner;
    m.dom().lemma_len_filter(is_owner);
    mp.dom().lemma_len_filter(is_owner);
    let okeys = owner_keys(m, owner);
    let okeysp = owner_keys(mp, owner);
    if amount > 0 {
        if m.contains_key(key) {
            assert(okeysp =~= okeys);
            lemma_sum_split(mp, okeysp, key);
            lemma_sum_split(m, okeys, key);
            lemma_sum_congruent(mp, m, okeys.remove(key));
        } else {
            assert(okeysp =~= okeys.insert(key));
            lemma_add_amount_commutative(mp);
            lemma_fold_insert(okeys, 0int, add_amount(mp), key);
            lemma_sum_congruent(mp, m, okeys);
        }
    } else {
        if m.contains_key(key) {
            assert(okeysp =~= okeys.remove(key));
            lemma_sum_split(m, okeys, key);
            lemma_sum_congruent(mp, m, okeys.remove(key));
        } else {
            assert(mp =~= m);
        }
    }
    assert forall|o2: Seq<char>| o2 != owner implies owner_debt(mp, o2) == owner_debt(m, o2) by {
        let is_o2 = |k: (Seq<char>, Seq<char>)| k.0 == o2;
        m.dom().lemma_len_filter(is_o2);
        assert(owner_keys(mp, o2) =~= owner_keys(m, o2));
        lemma_sum_congruent(mp, m, owner_keys(m, o2));
    }
}

/// A ledger with no accounts and no borrow records is well formed.
pub proof fn lemma_wf_when_empty(v: LedgerView)
    requires
        forall|o: Seq<char>| !v.accounts.contains_key(o),
        forall|k: (Seq<char>, Seq<char>)| !v.borrows.contains_key(k),
    ensures
        ledger_wf(v),
{
    assert(v.borrows.dom() =~= Set::empty());
}

/// Creating an account keeps the ledger well formed: the fresh account has
/// zero debt and, having not existed, no borrow records.
pub proof fn lemma_create_account_preserves_wf(v: LedgerView, owner: Seq<char>)
    requires
        ledger_wf(v),
    ensures
        ledger_wf(create_account_next(v, owner)),
{
    if !v.accounts.contains_key(owner) {
        let is_owner = |k: (Seq<char>, Seq<char>)| k.0 == owner;
        assert(owner_keys(v.borrows, owner) =~= Set::empty());
        lemma_fold_empty(0int, add_amount(v.borrows));
    }
}

/// Deleting an account keeps the ledger well formed: deletion demands zero
/// debt, and zero debt over positive records means no records at all.
pub proof fn lemma_delete_account_preserves_wf(v: LedgerView, owner: Seq<char>)
    requires
        ledger_wf(v),
    ensures
        ledger_wf(delete_account_next(v, owner)),
{
    if delete_account_result(v, owner) is Ok {
        let is_owner = |k: (Seq<char>, Seq<char>)| k.0 == owner;
        v.borrows.dom().lemma_len_filter(is_owner);
        assert(owner_keys(v.borrows, owner) =~= v.borrows.dom().filter(is_owner));
        assert forall|k: (Seq<char>, Seq<char>)| v.borrows.contains_key(k) implies k.0
            != owner by {
            if k.0 == owner {
                assert(owner_keys(v.borrows, owner).contains(k));
                lemma_sum_at_least(v.borrows, owner_keys(v.borrows, owner), k);
                assert(v.accounts[owner].1 == owner_debt(v.borrows, owner));
                assert(owner_debt(v.borrows, owner) >= v.borrows[k]);
            }
        }
    }
}

/// A deposit keeps the ledger well formed: it changes no debt and no
/// borrow record.
pub proof fn lemma_deposit_preserves_wf(
    v: LedgerView,
    caller: Seq<char>,
    owner: Seq<char>,
    amount: u128,
)
    requires
        ledger_wf(v),
    ensures
        ledger_wf(deposit_next(v, caller, owner, amount)),
{
}

/// A withdraw keeps the ledger well formed: it changes no debt and no
/// borrow record.
pub proof fn lemma_withdraw_preserves_wf(
    v: LedgerView,
    caller: Seq<char>,
    owner: Seq<char>,
    amount: u128,
)
    requires
        ledger_wf(v),
    ensures
        ledger_wf(withdraw_next(v, caller, owner, amount)),
{
}

/// A borrow keeps the ledger well formed: the debt and the borrow record
/// grow by the same amount.
pub proof fn lemma_borrow_preserves_wf(
    v: LedgerView,
    caller: Seq<char>,
    owner: Seq<char>,
    borrow_denom: Seq<char>,
    amount: u128,
    collateral_denom: Seq<char>,
)
    requires
        ledger_wf(v),
    ensures
        ledger_wf(borrow_next(v, caller, owner, borrow_denom, amount, collateral_denom)),
{
    if borrow_result(v, caller, owner, borrow_denom, amount, collateral_denom) is Ok {
        let m = v.borrows;
        let pos = position_amount(m, owner, borrow_denom);
        let new_amount = (pos + amount) as u128;
        let vp = borrow_next(v, caller, owner, borrow_denom, amount, collateral_denom);
        lemma_owner_debt_set(m, owner, borrow_denom, new_amount);
        assert(vp.borrows == position_set(m, owner, borrow_denom, new_amount));
        assert forall|k: (Seq<char>, Seq<char>)| vp.borrows.contains_key(k) implies vp.borrows[k]
            > 0 && vp.accounts.contains_key(k.0) by {
            if k != (owner, borrow_denom) {
                assert(m.contains_key(k));
            }
        }
        assert forall|o: Seq<char>| vp.accounts.contains_key(o) implies vp.accounts[o].1
            == owner_debt(vp.borrows, o) by {
            if o == owner {
                assert(owner_debt(vp.borrows, owner) == owner_debt(m, owner) - pos + new_amount);
                assert(vp.accounts[owner].1 == v.accounts[owner].1 + amount);
            } else {
                assert(owner_debt(vp.borrows, o) == owner_debt(m, o));
                assert(vp.accounts[o] == v.accounts[o]);
            }
        }
    }
}

/// A repayment keeps the ledger well formed: the debt and the borrow record
/// shrink by the same amount, the record disappearing at zero.
pub proof fn lemma_repay_preserves_wf(
    v: LedgerView,
    caller: Seq<char>,
    owner: Seq<char>,
    denom: Seq<char>,
    amount: u128,
)
    requires
        ledger_wf(v),
    ensures
        ledger_wf(repay_next(v, caller, owner, denom, amount)),
{
    if repay_result(v, caller, owner, denom, amount) is Ok {
        let m = v.borrows;
        let pos = position_amount(m, owner, denom);
        let new_amount = (m[(owner, denom)] - amount) as u128;
        let vp = repay_next(v, caller, owner, denom, amount);
        lemma_owner_debt_set(m, owner, denom, new_amount);
        assert(vp.borrows == position_set(m, owner, denom, new_amount));
        assert forall|k: (Seq<char>, Seq<char>)| vp.borrows.contains_key(k) implies vp.borrows[k]
            > 0 && vp.accounts.contains_key(k.0) by {
            if k != (owner, denom) {
                assert(m.contains_key(k));
            }
        }
        assert forall|o: Seq<char>| vp.accounts.contains_key(o) implies vp.accounts[o].1
            == owner_debt(vp.borrows, o) by {
            if o == owner {
                assert(owner_debt(vp.borrows, owner) == owner_debt(m, owner) - pos + new_amount);
                assert(vp.accounts[owner].1 == v.accounts[owner].1 - amount);
            } else {
                assert(owner_debt(vp.borrows, o) == owner_debt(m, o));
                assert(vp.accounts[o] == v.accounts[o]);
            }
        }
    }
}

/// A collateral release keeps the ledger well formed: it touches neither
/// the debts nor the borrow records.
pub proof fn lemma_release_collateral_preserves_wf(
    v: LedgerView,
    caller: Seq<char>,
    owner: Seq<char>,
    denom: Seq<char>,
    amount: u128,
)
    requires
        ledger_wf(v),
    ensures
        ledger_wf(release_collateral_next(v, caller, owner, denom, amount)),
{
}

/// A liquidation keeps the ledger well formed: the cleared record leaves
/// both the borrow map and the debt.
pub proof fn lemma_liquidate_preserves_wf(
    v: LedgerView,
    borrower: Seq<char>,
    debt_denom: Seq<char>,
    collateral_denom: Seq<char>,
)
    requires
        ledger_wf(v),
    ensures
        ledger_wf(liquidate_next(v, borrower, debt_denom, collateral_denom)),
{
    if liquidate_result(v, borrower, debt_denom, collateral_denom) is Ok {
        let m = v.borrows;
        let pos = position_amount(m, borrower, debt_denom);
        let vp = liquidate_next(v, borrower, debt_denom, collateral_denom);
        lemma_owner_debt_set(m, borrower, debt_denom, 0);
        assert(vp.borrows =~= position_set(m, borrower, debt_denom, 0));
        assert forall|k: (Seq<char>, Seq<char>)| vp.borrows.contains_key(k) implies vp.borrows[k]
            > 0 && vp.accounts.contains_key(k.0) by {
            if k != (borrower, debt_denom) {
                assert(m.contains_key(k));
            }
        }
        assert forall|o: Seq<char>| vp.accounts.contains_key(o) implies vp.accounts[o].1
            == owner_debt(vp.borrows, o) by {
            if o == borrower {
                assert(owner_debt(vp.borrows, borrower) == owner_debt(m, borrower) - pos);
                assert(vp.accounts[borrower].1 == v.accounts[borrower].1 - pos);
            } else {
                assert(owner_debt(vp.borrows, o) == owner_debt(m, o));
                assert(vp.accounts[o] == v.accounts[o]);
            }
        }
    }
}

/// In a well-formed ledger a repayment never fails with an arithmetic
/// error: whatever is outstanding on one record is covered by the debt.
pub proof fn lemma_repay_no_math_error(
    v: LedgerView,
    caller: Seq<char>,
    owner: Seq<char>,
    denom: Seq<char>,
    amount: u128,
)
    requires
        ledger_wf(v),
    ensures
        !(repay_result(v, caller, owner, denom, amount) matches Err(e) && e
            == LendError::MathError),
{
    if caller == owner && amount != 0 && v.accounts.contains_key(owner)
        && v.borrows.contains_key((owner, denom)) {
        lemma_debt_covers_record(v, owner, denom);
    }
}

/// In a well-formed ledger a liquidation of an existing account always
/// succeeds: the cleared record is covered by the debt.
pub proof fn lemma_liquidate_succeeds(
    v: LedgerView,
    borrower: Seq<char>,
    debt_denom: Seq<char>,
    collateral_denom: Seq<char>,
)
    requires
        ledger_wf(v),
        v.accounts.contains_key(borrower),
    ensures
        liquidate_result(v, borrower, debt_denom, collateral_denom) is Ok,
{
    if v.borrows.contains_key((borrower, debt_denom)) {
        lemma_debt_covers_record(v, borrower, debt_denom);
    }
}

} // verus!
