//! The keyed stores that hold the persisted records.
//!
//! Each logical store is a `cosmwasm_std::MemoryStorage` keyed-value store,
//! read and written through `cw_storage_plus` maps. The contents of each
//! store are named by an uninterpreted spec function, and every primitive
//! states over that name what the call does to the contents. All logic above
//! these primitives is verified against those names.

use vstd::prelude::*;
use vstd::string::StringSliceAdditionalSpecFns;

verus! {

/// The backing keyed-value store of one component.
/// `cosmwasm_std::MemoryStorage` is a map from byte keys to byte values with
/// `get`, `set` and `remove`; values of it are opaque here.
#[verifier::external_type_specification]
#[verifier::external_body]
pub struct ExMemoryStorage(cosmwasm_std::MemoryStorage);

/// The account records a store holds: owner address to (balance, debt).
pub uninterp spec fn accounts_of(s: cosmwasm_std::MemoryStorage) -> Map<Seq<char>, (u128, u128)>;

/// The per-token positions a store holds: (owner, denomination) to amount.
pub uninterp spec fn positions_of(s: cosmwasm_std::MemoryStorage) -> Map<(Seq<char>, Seq<char>), u128>;

/// The pool records a store holds: pool id to
/// (lend token, borrow token, total liquidity, total borrowed, utilization code).
pub uninterp spec fn pools_of(s: cosmwasm_std::MemoryStorage) -> Map<
    Seq<char>,
    (Seq<char>, Seq<char>, u128, u128, u8),
>;

/// The liquidity-provider records a store holds: provider address to amount.
pub uninterp spec fn providers_of(s: cosmwasm_std::MemoryStorage) -> Map<Seq<char>, u128>;

/// The price records a store holds: symbol to
/// (current price, moving-average price, current published at, average published at).
pub uninterp spec fn prices_of(s: cosmwasm_std::MemoryStorage) -> Map<
    Seq<char>,
    (u128, u128, u64, u64),
>;

/// The wrapped-token registry a store holds: pairs of (token, wrapped token).
pub uninterp spec fn registry_of(s: cosmwasm_std::MemoryStorage) -> Seq<(Seq<char>, Seq<char>)>;

/// The value a map holds at a key, if any.
pub open spec fn map_get<K, V>(m: Map<K, V>, k: K) -> Option<V> {
    if m.contains_key(k) {
        Some(m[k])
    } else {
        None
    }
}

/// The views of a list of string pairs.
pub open spec fn pairs_view(s: Seq<(String, String)>) -> Seq<(Seq<char>, Seq<char>)> {
    s.map(|i: int, p: (String, String)| (p.0@, p.1@))
}

/// Relies on cosmwasm_std::MemoryStorage::new: a fresh store holds no keys,
/// so every named content of it is empty.
#[verifier::external_body]
pub(crate) fn db_new() -> (s: cosmwasm_std::MemoryStorage)
    ensures
        forall|k: Seq<char>| !accounts_of(s).contains_key(k),
        forall|k: (Seq<char>, Seq<char>)| !positions_of(s).contains_key(k),
        forall|k: Seq<char>| !pools_of(s).contains_key(k),
        forall|k: Seq<char>| !providers_of(s).contains_key(k),
        forall|k: Seq<char>| !prices_of(s).contains_key(k),
        registry_of(s).len() == 0,
{
    cosmwasm_std::MemoryStorage::new()
}

/// Relies on cw_storage_plus::Map::may_load: it returns the value stored
/// under the key, or None where nothing is stored. Values under this
/// namespace are written only by `account_save`, so decoding cannot fail.
#[verifier::external_body]
pub(crate) fn account_load(s: &cosmwasm_std::MemoryStorage, owner: &str) -> (r: Option<
    (u128, u128),
>)
    ensures
        r == map_get(accounts_of(*s), owner@),
{
    let m: cw_storage_plus::Map<&str, (cosmwasm_std::Uint128, cosmwasm_std::Uint128)> =
        cw_storage_plus::Map::new("accounts");
    match m.may_load(s, owner) {
        Ok(Some((b, d))) => Some((b.u128(), d.u128())),
        _ => None,
    }
}

/// Relies on cw_storage_plus::Map::save: it stores the value under the key
/// and touches no other key. Serialization of this value type cannot fail.
#[verifier::external_body]
pub(crate) fn account_save(s: &mut cosmwasm_std::MemoryStorage, owner: &str, balance: u128, debt: u128)
    ensures
        accounts_of(*final(s)) == accounts_of(*old(s)).insert(owner@, (balance, debt)),
{
    let m: cw_storage_plus::Map<&str, (cosmwasm_std::Uint128, cosmwasm_std::Uint128)> =
        cw_storage_plus::Map::new("accounts");
    m.save(s, owner, &(cosmwasm_std::Uint128::new(balance), cosmwasm_std::Uint128::new(debt)))
        .unwrap();
}

/// Relies on cw_storage_plus::Map::remove: it removes the key and touches no
/// other key.
#[verifier::external_body]
pub(crate) fn account_remove(s: &mut cosmwasm_std::MemoryStorage, owner: &str)
    ensures
        accounts_of(*final(s)) == accounts_of(*old(s)).remove(owner@),
{
    let m: cw_storage_plus::Map<&str, (cosmwasm_std::Uint128, cosmwasm_std::Uint128)> =
        cw_storage_plus::Map::new("accounts");
    m.remove(s, owner);
}

/// Relies on cw_storage_plus::Map::may_load with a composite (owner, denom)
/// key; the owner part is length-prefixed, so distinct pairs never collide.
/// The prefix is 16 bits wide and the key builder panics above it, so the
/// owner part must fit in it.
#[verifier::external_body]
pub(crate) fn position_load(s: &cosmwasm_std::MemoryStorage, owner: &str, denom: &str) -> (r:
    Option<u128>)
    requires
        owner.spec_bytes().len() <= 0xFFFF,
    ensures
        r == map_get(positions_of(*s), (owner@, denom@)),
{
    let m: cw_storage_plus::Map<(&str, &str), cosmwasm_std::Uint128> =
        cw_storage_plus::Map::new("positions");
    match m.may_load(s, (owner, denom)) {
        Ok(Some(a)) => Some(a.u128()),
        _ => None,
    }
}

/// Relies on cw_storage_plus::Map::save with a composite (owner, denom)
/// key; the owner part must fit the 16-bit length prefix.
#[verifier::external_body]
pub(crate) fn position_save(
    s: &mut cosmwasm_std::MemoryStorage,
    owner: &str,
    denom: &str,
    amount: u128,
)
    requires
        owner.spec_bytes().len() <= 0xFFFF,
    ensures
        positions_of(*final(s)) == positions_of(*old(s)).insert((owner@, denom@), amount),
{
    let m: cw_storage_plus::Map<(&str, &str), cosmwasm_std::Uint128> =
        cw_storage_plus::Map::new("positions");
    m.save(s, (owner, denom), &cosmwasm_std::Uint128::new(amount)).unwrap();
}

/// Relies on cw_storage_plus::Map::remove with a composite (owner, denom)
/// key; the owner part must fit the 16-bit length prefix.
#[verifier::external_body]
pub(crate) fn position_remove(s: &mut cosmwasm_std::MemoryStorage, owner: &str, denom: &str)
    requires
        owner.spec_bytes().len() <= 0xFFFF,
    ensures
        positions_of(*final(s)) == positions_of(*old(s)).remove((owner@, denom@)),
{
    let m: cw_storage_plus::Map<(&str, &str), cosmwasm_std::Uint128> =
        cw_storage_plus::Map::new("positions");
    m.remove(s, (owner, denom));
}

/// Relies on cw_storage_plus::Map::may_load.
#[verifier::external_body]
pub(crate) fn pool_load(s: &cosmwasm_std::MemoryStorage, id: &str) -> (r: Option<
    (String, String, u128, u128, u8),
>)
    ensures
        match r {
            Some(t) => pools_of(*s).contains_key(id@) && pools_of(*s)[id@] == (
                t.0@,
                t.1@,
                t.2,
                t.3,
                t.4,
            ),
            None => !pools_of(*s).contains_key(id@),
        },
{
    let m: cw_storage_plus::Map<
        &str,
        (String, String, cosmwasm_std::Uint128, cosmwasm_std::Uint128, u8),
    > = cw_storage_plus::Map::new("pools");
    match m.may_load(s, id) {
        Ok(Some((l, b, tl, tb, u))) => Some((l, b, tl.u128(), tb.u128(), u)),
        _ => None,
    }
}

/// Relies on cw_storage_plus::Map::save.
#[verifier::external_body]
pub(crate) fn pool_save(
    s: &mut cosmwasm_std::MemoryStorage,
    id: &str,
    lend_token: &str,
    borrow_token: &str,
    total_liquidity: u128,
    total_borrowed: u128,
    utilization_code: u8,
)
    ensures
        pools_of(*final(s)) == pools_of(*old(s)).insert(
            id@,
            (lend_token@, borrow_token@, total_liquidity, total_borrowed, utilization_code),
        ),
{
    let m: cw_storage_plus::Map<
        &str,
        (String, String, cosmwasm_std::Uint128, cosmwasm_std::Uint128, u8),
    > = cw_storage_plus::Map::new("pools");
    m.save(
        s,
        id,
        &(
            lend_token.to_owned(),
            borrow_token.to_owned(),
            cosmwasm_std::Uint128::new(total_liquidity),
            cosmwasm_std::Uint128::new(total_borrowed),
            utilization_code,
        ),
    ).unwrap();
}

/// Relies on cw_storage_plus::Map::may_load.
#[verifier::external_body]
pub(crate) fn provider_load(s: &cosmwasm_std::MemoryStorage, address: &str) -> (r: Option<u128>)
    ensures
        r == map_get(providers_of(*s), address@),
{
    let m: cw_storage_plus::Map<&str, cosmwasm_std::Uint128> =
        cw_storage_plus::Map::new("providers");
    match m.may_load(s, address) {
        Ok(Some(a)) => Some(a.u128()),
        _ => None,
    }
}

/// Relies on cw_storage_plus::Map::save.
#[verifier::external_body]
pub(crate) fn provider_save(s: &mut cosmwasm_std::MemoryStorage, address: &str, amount: u128)
    ensures
        providers_of(*final(s)) == providers_of(*old(s)).insert(address@, amount),
{
    let m: cw_storage_plus::Map<&str, cosmwasm_std::Uint128> =
        cw_storage_plus::Map::new("providers");
    m.save(s, address, &cosmwasm_std::Uint128::new(amount)).unwrap();
}

/// Relies on cw_storage_plus::Map::may_load.
#[verifier::external_body]
pub(crate) fn price_load(s: &cosmwasm_std::MemoryStorage, symbol: &str) -> (r: Option<
    (u128, u128, u64, u64),
>)
    ensures
        r == map_get(prices_of(*s), symbol@),
{
    let m: cw_storage_plus::Map<
        &str,
        (cosmwasm_std::Uint128, cosmwasm_std::Uint128, u64, u64),
    > = cw_storage_plus::Map::new("prices");
    match m.may_load(s, symbol) {
        Ok(Some((p, e, pt, et))) => Some((p.u128(), e.u128(), pt, et)),
        _ => None,
    }
}

/// Relies on cw_storage_plus::Map::save.
#[verifier::external_body]
pub(crate) fn price_save(
    s: &mut cosmwasm_std::MemoryStorage,
    symbol: &str,
    price: u128,
    ema_price: u128,
    price_published: u64,
    ema_published: u64,
)
    ensures
        prices_of(*final(s)) == prices_of(*old(s)).insert(
            symbol@,
            (price, ema_price, price_published, ema_published),
        ),
{
    let m: cw_storage_plus::Map<
        &str,
        (cosmwasm_std::Uint128, cosmwasm_std::Uint128, u64, u64),
    > = cw_storage_plus::Map::new("prices");
    m.save(
        s,
        symbol,
        &(
            cosmwasm_std::Uint128::new(price),
            cosmwasm_std::Uint128::new(ema_price),
            price_published,
            ema_published,
        ),
    ).unwrap();
}

/// Relies on cw_storage_plus::Item::may_load: it returns the value
/// `registry_save` stored, or None where nothing was stored yet.
#[verifier::external_body]
pub(crate) fn registry_load(s: &cosmwasm_std::MemoryStorage) -> (r: Vec<(String, String)>)
    ensures
        pairs_view(r@) == registry_of(*s),
{
    let it: cw_storage_plus::Item<Vec<(String, String)>> =
        cw_storage_plus::Item::new("wrapped_tokens");
    match it.may_load(s) {
        Ok(Some(v)) => v,
        _ => Vec::new(),
    }
}

/// Relies on cw_storage_plus::Item::save.
#[verifier::external_body]
pub(crate) fn registry_save(s: &mut cosmwasm_std::MemoryStorage, pairs: &Vec<(String, String)>)
    ensures
        registry_of(*final(s)) == pairs_view(pairs@),
{
    let it: cw_storage_plus::Item<Vec<(String, String)>> =
        cw_storage_plus::Item::new("wrapped_tokens");
    it.save(s, pairs).unwrap();
}

} // verus!
