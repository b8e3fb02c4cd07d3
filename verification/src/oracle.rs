//! The price oracle gateway: the published price records, and the staleness
//! rule that decides whether a stored price may be served.
//!
//! A price is served only while both the current price and the
//! moving-average price were published within `STALENESS_WINDOW` time units
//! of the requesting clock; otherwise the query fails with
//! `PriceUnavailable` rather than returning a stale value.

use vstd::prelude::*;

use crate::error::LendError;
use crate::store;

verus! {

/// How many time units after publication a price still counts as fresh.
pub const STALENESS_WINDOW: u64 = 60;

/// Which external feed the gateway stands for; immutable after
/// initialization.
#[derive(Debug, Clone)]
pub struct OracleConfig {
    pub price_feed_id: String,
    pub oracle_contract_address: String,
}

/// A pair lookup request: the base and quote symbols.
#[derive(Debug)]
pub struct GetReferenceData {
    pub symbol_pair: (String, String),
}

/// A stored price record: the current and moving-average price, each with
/// its publication time.
#[derive(Debug, Clone, Copy, PartialEq, Eq, Structural)]
pub struct PriceRecord {
    pub price: u128,
    pub ema_price: u128,
    pub price_published: u64,
    pub ema_published: u64,
}

/// A served price: the current and the moving-average price.
#[derive(Debug, Clone, Copy, PartialEq, Eq, Structural)]
pub struct PriceQuote {
    pub price: u128,
    pub ema_price: u128,
}

/// When the current price was last published.
#[derive(Debug, Clone, Copy, PartialEq, Eq, Structural)]
pub struct LastUpdatedResponse {
    pub last_updated: u64,
}

/// Whether a price published at `published` is still fresh at `now`.
pub open spec fn fresh_spec(published: u64, now: u64) -> bool {
    now <= published + STALENESS_WINDOW
}

/// What a price query yields: the stored pair where both publication times
/// are within the freshness window of `now`, and `PriceUnavailable` where
/// the symbol has no record or either part is stale.
pub open spec fn fetch_price_result(
    prices: Map<Seq<char>, (u128, u128, u64, u64)>,
    symbol: Seq<char>,
    now: u64,
) -> Result<PriceQuote, LendError> {
    if !prices.contains_key(symbol) {
        Err(LendError::PriceUnavailable)
    } else if !fresh_spec(prices[symbol].2, now) || !fresh_spec(prices[symbol].3, now) {
        Err(LendError::PriceUnavailable)
    } else {
        Ok(PriceQuote { price: prices[symbol].0, ema_price: prices[symbol].1 })
    }
}

/// The mathematical state of the gateway: price records keyed by base
/// symbol, and the immutable feed identity.
#[verifier::ext_equal]
pub struct OracleView {
    pub prices: Map<Seq<char>, (u128, u128, u64, u64)>,
    pub price_feed_id: Seq<char>,
    pub oracle_contract_address: Seq<char>,
}

/// The price oracle gateway.
pub struct Oracle {
    prices: cosmwasm_std::MemoryStorage,
    config: OracleConfig,
}

impl View for Oracle {
    type V = OracleView;

    closed spec fn view(&self) -> OracleView {
        OracleView {
            prices: store::prices_of(self.prices),
            price_feed_id: self.config.price_feed_id@,
            oracle_contract_address: self.config.oracle_contract_address@,
        }
    }
}

impl Oracle {
    /// A gateway for the given feed, holding no prices yet.
    pub fn new(config: OracleConfig) -> (o: Oracle)
        ensures
            forall|k: Seq<char>| !o@.prices.contains_key(k),
            o@.price_feed_id == config.price_feed_id@,
            o@.oracle_contract_address == config.oracle_contract_address@,
    {
        Oracle { prices: store::db_new(), config }
    }

    /// The feed identity this gateway was initialized with.
    pub fn config(&self) -> (r: &OracleConfig)
        ensures
            r.price_feed_id@ == self@.price_feed_id,
            r.oracle_contract_address@ == self@.oracle_contract_address,
    {
        &self.config
    }

    /// Publishes a price for `symbol`, replacing any earlier record.
    pub fn update_price(
        &mut self,
        symbol: &str,
        price: u128,
        ema_price: u128,
        price_published: u64,
        ema_published: u64,
    )
        ensures
            final(self)@ == (OracleView {
                prices: old(self)@.prices.insert(
                    symbol@,
                    (price, ema_price, price_published, ema_published),
                ),
                ..old(self)@
            }),
    {
        store::price_save(
            &mut self.prices,
            symbol,
            price,
            ema_price,
            price_published,
            ema_published,
        );
    }

    /// The raw stored record for `symbol`, if any, with no freshness check.
    pub fn query_price(&self, symbol: &str) -> (r: Option<PriceRecord>)
        ensures
            match r {
                Some(p) => self@.prices.contains_key(symbol@) && (
                p.price,
                p.ema_price,
                p.price_published,
                p.ema_published,
                ) == self@.prices[symbol@],
                None => !self@.prices.contains_key(symbol@),
            },
    {
        match store::price_load(&self.prices, symbol) {
            None => None,
            Some((price, ema_price, price_published, ema_published)) => Some(
                PriceRecord { price, ema_price, price_published, ema_published },
            ),
        }
    }

    /// When the current price of `symbol` was last published, if a record
    /// exists.
    pub fn last_updated(&self, symbol: &str) -> (r: Option<LastUpdatedResponse>)
        ensures
            match r {
                Some(l) => self@.prices.contains_key(symbol@) && l.last_updated
                    == self@.prices[symbol@].2,
                None => !self@.prices.contains_key(symbol@),
            },
    {
        match store::price_load(&self.prices, symbol) {
            None => None,
            Some((_price, _ema_price, price_published, _ema_published)) => Some(
                LastUpdatedResponse { last_updated: price_published },
            ),
        }
    }

    /// The current and moving-average price for the base symbol of `pair`,
    /// evaluated against the reference clock `now`: a record published
    /// outside the freshness window is not served.
    pub fn fetch_price(&self, pair: &GetReferenceData, now: u64) -> (r: Result<
        PriceQuote,
        LendError,
    >)
        ensures
            r == fetch_price_result(self@.prices, pair.symbol_pair.0@, now),
    {
        match store::price_load(&self.prices, pair.symbol_pair.0.as_str()) {
            None => Err(LendError::PriceUnavailable),
            Some((price, ema_price, price_published, ema_published)) => {
                let price_fresh: bool = price_published > u64::MAX - STALENESS_WINDOW || now
                    <= price_published + STALENESS_WINDOW;
                let ema_fresh: bool = ema_published > u64::MAX - STALENESS_WINDOW || now
                    <= ema_published + STALENESS_WINDOW;
                if !price_fresh || !ema_fresh {
                    Err(LendError::PriceUnavailable)
                } else {
                    Ok(PriceQuote { price, ema_price })
                }
            },
        }
    }
}

} // verus!
