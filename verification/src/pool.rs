//! The pool utilization tracker and the liquidity-provider records.
//!
//! A pool aggregates total liquidity and total borrowed amounts and carries a
//! derived utilization tier. The tier is recomputed from the totals by the
//! classifier and never set independently.

use vstd::prelude::*;

use crate::error::LendError;
use crate::ledger::OpAction;
use crate::ledger::OpRecord;
use crate::store;
use crate::token::Token;
use crate::token::str_eq;

verus! {

/// The discrete utilization tier of a pool.
#[derive(Debug, Clone, Copy, PartialEq, Eq, Structural)]
pub enum PoolUtilization {
    High,
    Medium,
    Low,
}

impl PoolUtilization {
    /// The tier's label.
    pub open spec fn label_spec(&self) -> Seq<char> {
        match self {
            PoolUtilization::Low => "low"@,
            PoolUtilization::Medium => "medium"@,
            PoolUtilization::High => "high"@,
        }
    }

    pub fn to_string(&self) -> (r: String)
        ensures
            r@ == self.label_spec(),
    {
        match self {
            PoolUtilization::Low => "low".to_owned(),
            PoolUtilization::Medium => "medium".to_owned(),
            PoolUtilization::High => "high".to_owned(),
        }
    }
}

/// The stored code of a tier.
pub open spec fn utilization_code_spec(u: PoolUtilization) -> u8 {
    match u {
        PoolUtilization::Low => 0u8,
        PoolUtilization::Medium => 1u8,
        PoolUtilization::High => 2u8,
    }
}

/// The tier a stored code denotes.
pub open spec fn code_utilization_spec(c: u8) -> PoolUtilization {
    if c == 2 {
        PoolUtilization::High
    } else if c == 1 {
        PoolUtilization::Medium
    } else {
        PoolUtilization::Low
    }
}

/// The tier of a utilization ratio: above 90 is high, above 50 is medium,
/// and 50 or below is low. Both boundaries are exclusive on the upper side.
pub open spec fn classify_spec(ratio: int) -> PoolUtilization {
    if ratio > 90 {
        PoolUtilization::High
    } else if ratio > 50 {
        PoolUtilization::Medium
    } else {
        PoolUtilization::Low
    }
}

/// What classifying a pool's totals yields: the tier of the ratio
/// `total_borrowed / total_liquidity` (integer division), or `MathError`
/// where the pool has no liquidity to divide by.
pub open spec fn utilization_result(total_borrowed: u128, total_liquidity: u128) -> Result<
    PoolUtilization,
    LendError,
> {
    if total_liquidity == 0 {
        Err(LendError::MathError)
    } else {
        Ok(classify_spec(total_borrowed as int / total_liquidity as int))
    }
}

/// The utilization tier of a pool's totals. The classifier is a pure
/// function of (total_borrowed, total_liquidity) and of nothing else.
pub fn classify_utilization(total_borrowed: u128, total_liquidity: u128) -> (r: Result<
    PoolUtilization,
    LendError,
>)
    ensures
        r == utilization_result(total_borrowed, total_liquidity),
{
    if total_liquidity == 0 {
        return Err(LendError::MathError);
    }
    let ratio: u128 = total_borrowed / total_liquidity;
    if ratio > 90 {
        Ok(PoolUtilization::High)
    } else if ratio > 50 {
        Ok(PoolUtilization::Medium)
    } else {
        Ok(PoolUtilization::Low)
    }
}

/// A pool snapshot: its tokens, aggregate totals, and derived tier.
#[derive(Debug, Clone)]
pub struct Pool {
    pub id: String,
    pub lend_token: String,
    pub borrow_token: String,
    pub utilization: PoolUtilization,
    pub total_liquidity: u128,
    pub total_borrowed: u128,
}

/// A liquidity provider's record: the address and the amount it has
/// contributed to the pool-wide escrow.
#[derive(Debug, Clone)]
pub struct LiquidityProvider {
    pub address: String,
    pub liquidity_amount: u128,
}

/// The request for one provider's record.
#[derive(Debug, Clone)]
pub struct QueryUserBalanceMsg {
    pub user_address: String,
}

/// The interest-rate parameters a lending pool is created with. The rate
/// model is carried as data; no automatic rate adjustment is derived from
/// tier transitions.
#[derive(Debug, Clone, Copy, PartialEq, Eq, Structural)]
pub struct InterestRateModel {
    pub base_rate: u64,
    pub slope1: u64,
    pub slope2: u64,
    pub optimal_utilization: u64,
}

/// The parameter set a new lending pool is created from.
#[derive(Debug, Clone)]
pub struct LendingPoolParams {
    pub asset_token: String,
    pub interest_rate_model: InterestRateModel,
    pub reserve_factor: u64,
    pub liquidation_threshold: u64,
}

/// The mathematical state of the pool book: pool records keyed by id, each
/// the tuple (lend token, borrow token, total liquidity, total borrowed,
/// utilization code), provider records keyed by address, and the one
/// denomination in which liquidity is accepted.
#[verifier::ext_equal]
pub struct PoolBookView {
    pub pools: Map<Seq<char>, (Seq<char>, Seq<char>, u128, u128, u8)>,
    pub providers: Map<Seq<char>, u128>,
    pub liquidity_denom: Seq<char>,
}

/// The amount a provider has contributed; absent means zero.
pub open spec fn provider_amount(m: Map<Seq<char>, u128>, address: Seq<char>) -> u128 {
    if m.contains_key(address) {
        m[address]
    } else {
        0u128
    }
}

/// What recomputing a pool's tier yields: the tier of its stored totals, or
/// the exact error where the pool is missing or has no liquidity.
pub open spec fn change_pool_result(v: PoolBookView, id: Seq<char>) -> Result<
    PoolUtilization,
    LendError,
> {
    if !v.pools.contains_key(id) {
        Err(LendError::TokenNotFound)
    } else {
        utilization_result(v.pools[id].3, v.pools[id].2)
    }
}

pub open spec fn change_pool_next(v: PoolBookView, id: Seq<char>) -> PoolBookView {
    match change_pool_result(v, id) {
        Ok(u) => (PoolBookView {
            pools: v.pools.insert(
                id,
                (
                    v.pools[id].0,
                    v.pools[id].1,
                    v.pools[id].2,
                    v.pools[id].3,
                    utilization_code_spec(u),
                ),
            ),
            ..v
        }),
        Err(_) => v,
    }
}

/// What providing liquidity yields: the provider's new total, or
/// `WrongToken` for a denomination other than the accepted one, or
/// `MathError` where the addition would overflow.
pub open spec fn provide_liquidity_result(
    v: PoolBookView,
    provider: Seq<char>,
    denom: Seq<char>,
    amount: u128,
) -> Result<u128, LendError> {
    if denom != v.liquidity_denom {
        Err(LendError::WrongToken)
    } else if provider_amount(v.providers, provider) + amount > u128::MAX {
        Err(LendError::MathError)
    } else {
        Ok((provider_amount(v.providers, provider) + amount) as u128)
    }
}

pub open spec fn provide_liquidity_next(
    v: PoolBookView,
    provider: Seq<char>,
    denom: Seq<char>,
    amount: u128,
) -> PoolBookView {
    match provide_liquidity_result(v, provider, denom, amount) {
        Ok(total) => (PoolBookView { providers: v.providers.insert(provider, total), ..v }),
        Err(_) => v,
    }
}

/// What withdrawing liquidity yields: the provider's new total, or
/// `InsufficientFunds` for a withdrawal of more than was contributed.
pub open spec fn withdraw_liquidity_result(
    v: PoolBookView,
    provider: Seq<char>,
    amount: u128,
) -> Result<u128, LendError> {
    if provider_amount(v.providers, provider) < amount {
        Err(LendError::InsufficientFunds)
    } else {
        Ok((provider_amount(v.providers, provider) - amount) as u128)
    }
}

pub open spec fn withdraw_liquidity_next(
    v: PoolBookView,
    provider: Seq<char>,
    amount: u128,
) -> PoolBookView {
    match withdraw_liquidity_result(v, provider, amount) {
        Ok(total) => (PoolBookView { providers: v.providers.insert(provider, total), ..v }),
        Err(_) => v,
    }
}

/// The pool book: the pool and liquidity-provider records, and the accepted
/// liquidity denomination, fixed at construction.
pub struct PoolBook {
    pools: cosmwasm_std::MemoryStorage,
    providers: cosmwasm_std::MemoryStorage,
    liquidity_token: Token,
}

impl View for PoolBook {
    type V = PoolBookView;

    closed spec fn view(&self) -> PoolBookView {
        PoolBookView {
            pools: store::pools_of(self.pools),
            providers: store::providers_of(self.providers),
            liquidity_denom: self.liquidity_token.denom_spec(),
        }
    }
}

impl PoolBook {
    /// A pool book with no pools and no providers, accepting liquidity in
    /// the given token.
    pub fn new(liquidity_token: Token) -> (b: PoolBook)
        ensures
            forall|k: Seq<char>| !b@.pools.contains_key(k),
            forall|k: Seq<char>| !b@.providers.contains_key(k),
            b@.liquidity_denom == liquidity_token.denom_spec(),
    {
        PoolBook { pools: store::db_new(), providers: store::db_new(), liquidity_token }
    }

    /// Creates (or resets) the pool record for `id` with the given totals
    /// and the low tier; the tier is then maintained by the classifier.
    pub fn create_pool(
        &mut self,
        id: &str,
        lend_token: &str,
        borrow_token: &str,
        total_liquidity: u128,
        total_borrowed: u128,
    )
        ensures
            final(self)@ == (PoolBookView {
                pools: old(self)@.pools.insert(
                    id@,
                    (lend_token@, borrow_token@, total_liquidity, total_borrowed, 0u8),
                ),
                ..old(self)@
            }),
    {
        store::pool_save(
            &mut self.pools,
            id,
            lend_token,
            borrow_token,
            total_liquidity,
            total_borrowed,
            0,
        );
    }

    /// The pool snapshot for `id`, if a record exists.
    pub fn get_pool(&self, id: &str) -> (r: Option<Pool>)
        ensures
            match r {
                Some(p) => self@.pools.contains_key(id@) && p.id@ == id@ && p.lend_token@
                    == self@.pools[id@].0 && p.borrow_token@ == self@.pools[id@].1
                    && p.total_liquidity == self@.pools[id@].2 && p.total_borrowed
                    == self@.pools[id@].3 && p.utilization == code_utilization_spec(
                    self@.pools[id@].4,
                ),
                None => !self@.pools.contains_key(id@),
            },
    {
        match store::pool_load(&self.pools, id) {
            None => None,
            Some((lend_token, borrow_token, total_liquidity, total_borrowed, code)) => {
                let utilization = if code == 2 {
                    PoolUtilization::High
                } else if code == 1 {
                    PoolUtilization::Medium
                } else {
                    PoolUtilization::Low
                };
                Some(
                    Pool {
                        id: id.to_owned(),
                        lend_token,
                        borrow_token,
                        utilization,
                        total_liquidity,
                        total_borrowed,
                    },
                )
            },
        }
    }

    /// Recomputes and persists the utilization tier of the pool `id` from
    /// its stored totals.
    pub fn change_pool_utilization(&mut self, id: &str) -> (r: Result<PoolUtilization, LendError>)
        ensures
            final(self)@ == change_pool_next(old(self)@, id@),
            r == change_pool_result(old(self)@, id@),
    {
        match store::pool_load(&self.pools, id) {
            None => Err(LendError::TokenNotFound),
            Some((lend_token, borrow_token, total_liquidity, total_borrowed, _code)) => {
                let utilization = classify_utilization(total_borrowed, total_liquidity)?;
                let code: u8 = match utilization {
                    PoolUtilization::Low => 0,
                    PoolUtilization::Medium => 1,
                    PoolUtilization::High => 2,
                };
                store::pool_save(
                    &mut self.pools,
                    id,
                    lend_token.as_str(),
                    borrow_token.as_str(),
                    total_liquidity,
                    total_borrowed,
                    code,
                );
                Ok(utilization)
            },
        }
    }

    /// Adds `amount` to the provider's contribution, accepting only the
    /// configured liquidity denomination.
    pub fn provide_liquidity(&mut self, provider: &str, token: &Token, amount: u128) -> (r: Result<
        OpRecord,
        LendError,
    >)
        ensures
            final(self)@ == provide_liquidity_next(
                old(self)@,
                provider@,
                token.denom_spec(),
                amount,
            ),
            (match (
                r,
                provide_liquidity_result(old(self)@, provider@, token.denom_spec(), amount),
            ) {
                (Ok(rec), Ok(total)) => rec.action == OpAction::ProvideLiquidity && rec.actor@
                    == provider@ && (rec.token matches Some(t) && t@ == token.denom_spec())
                    && rec.amount == amount && rec.amount_before == provider_amount(
                    old(self)@.providers,
                    provider@,
                ) && rec.amount_after == total,
                (Err(e), Err(e2)) => e == e2,
                _ => false,
            }),
    {
        let denom = token.denom();
        let accepted = self.liquidity_token.denom();
        if !str_eq(denom.as_str(), accepted.as_str()) {
            return Err(LendError::WrongToken);
        }
        let current: u128 = match store::provider_load(&self.providers, provider) {
            Some(a) => a,
            None => 0,
        };
        if amount > u128::MAX - current {
            return Err(LendError::MathError);
        }
        let total: u128 = current + amount;
        store::provider_save(&mut self.providers, provider, total);
        Ok(OpRecord {
            action: OpAction::ProvideLiquidity,
            actor: provider.to_owned(),
            token: Some(denom),
            amount,
            amount_before: current,
            amount_after: total,
        })
    }

    /// Removes `amount` from the provider's contribution, rejecting a
    /// withdrawal of more than was contributed.
    pub fn withdraw_liquidity(&mut self, provider: &str, amount: u128) -> (r: Result<
        OpRecord,
        LendError,
    >)
        ensures
            final(self)@ == withdraw_liquidity_next(old(self)@, provider@, amount),
            (match (r, withdraw_liquidity_result(old(self)@, provider@, amount)) {
                (Ok(rec), Ok(total)) => rec.action == OpAction::WithdrawLiquidity && rec.actor@
                    == provider@ && rec.token is None && rec.amount == amount && rec.amount_before
                    == provider_amount(old(self)@.providers, provider@) && rec.amount_after
                    == total,
                (Err(e), Err(e2)) => e == e2,
                _ => false,
            }),
    {
        let current: u128 = match store::provider_load(&self.providers, provider) {
            Some(a) => a,
            None => 0,
        };
        if current < amount {
            return Err(LendError::InsufficientFunds);
        }
        let total: u128 = current - amount;
        store::provider_save(&mut self.providers, provider, total);
        Ok(OpRecord {
            action: OpAction::WithdrawLiquidity,
            actor: provider.to_owned(),
            token: None,
            amount,
            amount_before: current,
            amount_after: total,
        })
    }

    /// The liquidity-provider record the request asks for, if one exists.
    pub fn query_user_balance(&self, msg: &QueryUserBalanceMsg) -> (r: Option<LiquidityProvider>)
        ensures
            match r {
                Some(p) => self@.providers.contains_key(msg.user_address@) && p.address@
                    == msg.user_address@ && p.liquidity_amount
                    == self@.providers[msg.user_address@],
                None => !self@.providers.contains_key(msg.user_address@),
            },
    {
        match store::provider_load(&self.providers, msg.user_address.as_str()) {
            None => None,
            Some(liquidity_amount) => Some(
                LiquidityProvider { address: msg.user_address.clone(), liquidity_amount },
            ),
        }
    }
}

} // verus!
