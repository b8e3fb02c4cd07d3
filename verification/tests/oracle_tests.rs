use eulend::error::LendError;
use eulend::oracle::GetReferenceData;
use eulend::oracle::Oracle;
use eulend::oracle::OracleConfig;
use eulend::oracle::STALENESS_WINDOW;

fn btc_usd() -> GetReferenceData {
    GetReferenceData { symbol_pair: ("btc".to_string(), "usd".to_string()) }
}

fn oracle() -> Oracle {
    Oracle::new(OracleConfig {
        price_feed_id: "btc-usd-feed".to_string(),
        oracle_contract_address: "archway1909sv5amdvv5knskc2lmxetue3u3wyv8hzqcfdmw4jnkzryrllaqzydthg"
            .to_string(),
    })
}

#[test]
fn test_update_and_query_price() {
    let mut o = oracle();
    assert!(o.query_price("btc").is_none());

    o.update_price("btc", 64000, 63500, 100, 90);
    let rec = o.query_price("btc").unwrap();
    assert_eq!(rec.price, 64000);
    assert_eq!(rec.ema_price, 63500);
    assert_eq!(rec.price_published, 100);
    assert_eq!(rec.ema_published, 90);

    // A later publication replaces the record.
    o.update_price("btc", 65000, 64000, 160, 150);
    assert_eq!(o.query_price("btc").unwrap().price, 65000);

    assert_eq!(o.last_updated("btc").unwrap().last_updated, 160);
    assert!(o.last_updated("eth").is_none());
}

#[test]
fn test_fetch_price_fresh() {
    let mut o = oracle();
    o.update_price("btc", 64000, 63500, 100, 95);

    let quote = o.fetch_price(&btc_usd(), 150).unwrap();
    assert_eq!(quote.price, 64000);
    assert_eq!(quote.ema_price, 63500);

    // The window boundary itself still counts as fresh.
    let quote = o.fetch_price(&btc_usd(), 95 + STALENESS_WINDOW).unwrap();
    assert_eq!(quote.price, 64000);
}

#[test]
fn test_fetch_price_stale() {
    let mut o = oracle();

    // No record at all.
    assert_eq!(o.fetch_price(&btc_usd(), 10).unwrap_err(), LendError::PriceUnavailable);

    // The current price is out of the window.
    o.update_price("btc", 64000, 63500, 100, 200);
    assert_eq!(
        o.fetch_price(&btc_usd(), 100 + STALENESS_WINDOW + 1).unwrap_err(),
        LendError::PriceUnavailable
    );

    // The moving-average price alone is out of the window.
    o.update_price("btc", 64000, 63500, 200, 100);
    assert_eq!(
        o.fetch_price(&btc_usd(), 100 + STALENESS_WINDOW + 1).unwrap_err(),
        LendError::PriceUnavailable
    );
}

#[test]
fn test_oracle_config_is_kept() {
    let o = oracle();
    assert_eq!(o.config().price_feed_id, "btc-usd-feed");
    assert_eq!(
        o.config().oracle_contract_address,
        "archway1909sv5amdvv5knskc2lmxetue3u3wyv8hzqcfdmw4jnkzryrllaqzydthg"
    );
}
