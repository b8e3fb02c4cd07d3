use eulend::error::LendError;
use eulend::ledger::OpAction;
use eulend::pool::PoolBook;
use eulend::pool::PoolUtilization;
use eulend::pool::QueryUserBalanceMsg;
use eulend::pool::classify_utilization;
use eulend::token::Token;

fn usdc_book() -> PoolBook {
    PoolBook::new(Token::Foreign("usdc".to_string()))
}

#[test]
fn test_withdraw_liquidity() {
    let mut book = usdc_book();

    // Nothing was contributed, so a withdrawal of 1000 is refused and the
    // record stays as it was.
    let err = book.withdraw_liquidity("sender", 1000).unwrap_err();
    assert_eq!(err, LendError::InsufficientFunds);

    let usdc = Token::Foreign("usdc".to_string());
    book.provide_liquidity("sender", &usdc, 1000).unwrap();
    let rec = book.withdraw_liquidity("sender", 1000).unwrap();
    assert_eq!(rec.action, OpAction::WithdrawLiquidity);
    assert_eq!(rec.amount_before, 1000);
    assert_eq!(rec.amount_after, 0);
}

#[test]
fn test_classifier_tiers() {
    // ratio 95 -> High, 60 -> Medium, 10 -> Low; the boundaries 90 and 50
    // fall on the lower tier because both comparisons are strict.
    assert_eq!(classify_utilization(9500, 100), Ok(PoolUtilization::High));
    assert_eq!(classify_utilization(6000, 100), Ok(PoolUtilization::Medium));
    assert_eq!(classify_utilization(1000, 100), Ok(PoolUtilization::Low));
    assert_eq!(classify_utilization(9000, 100), Ok(PoolUtilization::Medium));
    assert_eq!(classify_utilization(5000, 100), Ok(PoolUtilization::Low));
    assert_eq!(classify_utilization(91, 1), Ok(PoolUtilization::High));
    assert_eq!(classify_utilization(0, 100), Ok(PoolUtilization::Low));
}

#[test]
fn test_classifier_no_liquidity() {
    assert_eq!(classify_utilization(100, 0), Err(LendError::MathError));
}

#[test]
fn test_change_pool_utilization() {
    let mut book = usdc_book();
    book.create_pool("1", "usdc", "atom", 100, 9500);

    let pool = book.get_pool("1").unwrap();
    assert_eq!(pool.utilization, PoolUtilization::Low);
    assert_eq!(pool.lend_token, "usdc");
    assert_eq!(pool.borrow_token, "atom");
    assert_eq!(pool.total_liquidity, 100);
    assert_eq!(pool.total_borrowed, 9500);

    let tier = book.change_pool_utilization("1").unwrap();
    assert_eq!(tier, PoolUtilization::High);
    assert_eq!(book.get_pool("1").unwrap().utilization, PoolUtilization::High);
    assert_eq!(tier.to_string(), "high");
}

#[test]
fn test_change_pool_utilization_missing_pool() {
    let mut book = usdc_book();
    assert_eq!(book.change_pool_utilization("9").unwrap_err(), LendError::TokenNotFound);
}

#[test]
fn test_change_pool_utilization_zero_liquidity() {
    let mut book = usdc_book();
    book.create_pool("1", "usdc", "atom", 0, 50);
    assert_eq!(book.change_pool_utilization("1").unwrap_err(), LendError::MathError);
    // The failed recomputation left the pool unchanged.
    assert_eq!(book.get_pool("1").unwrap().utilization, PoolUtilization::Low);
}

#[test]
fn test_provide_liquidity_wrong_token() {
    let mut book = usdc_book();
    let atom = Token::Foreign("atom".to_string());
    assert_eq!(
        book.provide_liquidity("provider", &atom, 100).unwrap_err(),
        LendError::WrongToken
    );
    let msg = QueryUserBalanceMsg { user_address: "provider".to_string() };
    assert!(book.query_user_balance(&msg).is_none());
}

#[test]
fn test_provide_liquidity_accumulates() {
    let mut book = usdc_book();
    let usdc = Token::Foreign("usdc".to_string());

    let rec = book.provide_liquidity("provider", &usdc, 400).unwrap();
    assert_eq!(rec.action, OpAction::ProvideLiquidity);
    assert_eq!(rec.amount_after, 400);

    let rec = book.provide_liquidity("provider", &usdc, 100).unwrap();
    assert_eq!(rec.amount_before, 400);
    assert_eq!(rec.amount_after, 500);

    let msg = QueryUserBalanceMsg { user_address: "provider".to_string() };
    let provider = book.query_user_balance(&msg).unwrap();
    assert_eq!(provider.address, "provider");
    assert_eq!(provider.liquidity_amount, 500);
}

#[test]
fn test_utilization_labels() {
    assert_eq!(PoolUtilization::Low.to_string(), "low");
    assert_eq!(PoolUtilization::Medium.to_string(), "medium");
    assert_eq!(PoolUtilization::High.to_string(), "high");
}
