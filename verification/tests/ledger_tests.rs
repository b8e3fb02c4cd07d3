use eulend::error::LendError;
use eulend::ledger::Ledger;
use eulend::ledger::OpAction;
use eulend::ledger::address_fits_keys;
use eulend::token::Token;

const ADDR1: &str = "archway1t00mqwm46hmvkgj4ysyh0ykyjln3yw2fvt92wj";
const ADDR2: &str = "archway1ehuphj3j9ml5stwan46syfv8rj9uw49mm7a5vy";

#[test]
fn test_create_account() {
    let mut ledger = Ledger::new();

    let rec = ledger.create_account(ADDR1).unwrap();
    assert_eq!(rec.action, OpAction::CreateAccount);
    assert_eq!(rec.actor, ADDR1);

    let err = ledger.create_account(ADDR1).unwrap_err();
    match err {
        LendError::AccountExists => {}
        e => panic!("unexpected error: {:?}", e),
    }
}

#[test]
fn test_borrow() {
    let mut ledger = Ledger::new();
    ledger.create_account(ADDR1).unwrap();

    let atom = Token::Foreign("atom".to_string());
    let usdc = Token::Foreign("usdc".to_string());
    ledger.deposit(ADDR1, ADDR1, &atom, 200).unwrap();

    let rec = ledger.borrow(ADDR1, ADDR1, &usdc, 100, &atom).unwrap();
    assert_eq!(rec.action, OpAction::Borrow);
    assert_eq!(rec.actor, ADDR1);
    assert_eq!(rec.token.as_deref(), Some("usdc"));
    assert_eq!(rec.amount, 100);
    assert_eq!(rec.amount_before, 0);
    assert_eq!(rec.amount_after, 100);

    // Borrowing 100 at the 80% ratio locks floor(100 * 100 / 80) = 125.
    let account = ledger.get_account(ADDR1).unwrap();
    assert_eq!(account.balance, 75);
    assert_eq!(account.debt, 100);
    assert_eq!(ledger.get_collateral(ADDR1, &atom), Some(125));
    assert_eq!(ledger.get_borrowed(ADDR1, &usdc), Some(100));
}

#[test]
fn test_repay() {
    let mut ledger = Ledger::new();
    ledger.create_account(ADDR1).unwrap();

    let atom = Token::Foreign("atom".to_string());
    let usdc = Token::Foreign("usdc".to_string());
    ledger.deposit(ADDR1, ADDR1, &atom, 200).unwrap();
    ledger.borrow(ADDR1, ADDR1, &usdc, 100, &atom).unwrap();

    let rec = ledger.repay(ADDR1, ADDR1, &usdc, 100).unwrap();
    assert_eq!(rec.action, OpAction::Repay);
    assert_eq!(rec.actor, ADDR1);
    assert_eq!(rec.token.as_deref(), Some("usdc"));
    assert_eq!(rec.amount, 100);
    assert_eq!(rec.amount_before, 100);
    assert_eq!(rec.amount_after, 0);
    assert_eq!(ledger.get_borrowed(ADDR1, &usdc), None);

    // A repayment of zero supplies no funds.
    let err = ledger.repay(ADDR1, ADDR1, &usdc, 0).unwrap_err();
    match err {
        LendError::NoRepayment => {}
        e => panic!("unexpected error: {:?}", e),
    }

    // With the debt repaid, the locked collateral is withdrawn in full.
    let rec = ledger.release_collateral(ADDR1, ADDR1, &atom, 125).unwrap();
    assert_eq!(rec.action, OpAction::ReleaseCollateral);
    assert_eq!(rec.amount, 125);
    assert_eq!(rec.amount_after, 0);
    assert_eq!(ledger.get_collateral(ADDR1, &atom), None);
}

#[test]
fn test_release_collateral() {
    let mut ledger = Ledger::new();
    ledger.create_account(ADDR1).unwrap();
    let native = Token::Native;
    let usdc = Token::Foreign("usdc".to_string());
    ledger.deposit(ADDR1, ADDR1, &native, 1000).unwrap();

    // No collateral position exists yet in this denomination.
    let err = ledger.release_collateral(ADDR1, ADDR1, &native, 1).unwrap_err();
    assert_eq!(err, LendError::TokenNotFound);

    ledger.borrow(ADDR1, ADDR1, &usdc, 100, &native).unwrap();
    assert_eq!(ledger.get_collateral(ADDR1, &native), Some(125));

    // Releasing more than is locked is refused and changes nothing.
    let err = ledger.release_collateral(ADDR1, ADDR1, &native, 126).unwrap_err();
    assert_eq!(err, LendError::InsufficientFunds);
    assert_eq!(ledger.get_collateral(ADDR1, &native), Some(125));

    // Only the owner may release.
    let err = ledger.release_collateral(ADDR2, ADDR1, &native, 25).unwrap_err();
    assert_eq!(err, LendError::Unauthorized);

    // A partial release keeps the remainder; the balance is untouched,
    // since the released funds leave by transfer.
    let rec = ledger.release_collateral(ADDR1, ADDR1, &native, 25).unwrap();
    assert_eq!(rec.amount_before, 125);
    assert_eq!(rec.amount_after, 100);
    assert_eq!(ledger.get_collateral(ADDR1, &native), Some(100));
    assert_eq!(ledger.get_balance(ADDR1).unwrap().balance, 875);

    // Releasing the rest removes the position: no zero entry persists.
    ledger.release_collateral(ADDR1, ADDR1, &native, 100).unwrap();
    assert_eq!(ledger.get_collateral(ADDR1, &native), None);
}

#[test]
fn test_deposit_withdraw_round_trip() {
    let mut ledger = Ledger::new();
    ledger.create_account(ADDR1).unwrap();
    let token = Token::Native;

    ledger.deposit(ADDR1, ADDR1, &token, 300).unwrap();
    let before: u128 = ledger.get_balance(ADDR1).unwrap().balance;

    ledger.deposit(ADDR1, ADDR1, &token, 500).unwrap();
    ledger.withdraw(ADDR1, ADDR1, &token, 500).unwrap();

    assert_eq!(ledger.get_balance(ADDR1).unwrap().balance, before);
}

#[test]
fn test_withdraw_more_than_balance() {
    let mut ledger = Ledger::new();
    ledger.create_account(ADDR1).unwrap();
    let token = Token::Native;
    ledger.deposit(ADDR1, ADDR1, &token, 40).unwrap();

    let err = ledger.withdraw(ADDR1, ADDR1, &token, 41).unwrap_err();
    assert_eq!(err, LendError::InsufficientFunds);

    // The failed withdraw left the state unchanged.
    assert_eq!(ledger.get_balance(ADDR1).unwrap().balance, 40);
    assert_eq!(ledger.get_account(ADDR1).unwrap().debt, 0);
}

#[test]
fn test_repay_without_borrow_record() {
    let mut ledger = Ledger::new();
    ledger.create_account(ADDR1).unwrap();
    let token = Token::Native;
    ledger.deposit(ADDR1, ADDR1, &token, 100).unwrap();

    let err = ledger.repay(ADDR1, ADDR1, &token, 10).unwrap_err();
    assert_eq!(err, LendError::TokenNotFound);

    // The failed repay left the state unchanged.
    assert_eq!(ledger.get_balance(ADDR1).unwrap().balance, 100);
    assert_eq!(ledger.get_account(ADDR1).unwrap().debt, 0);
}

#[test]
fn test_unauthorized_operations() {
    let mut ledger = Ledger::new();
    ledger.create_account(ADDR1).unwrap();
    let token = Token::Native;

    assert_eq!(ledger.deposit(ADDR2, ADDR1, &token, 5).unwrap_err(), LendError::Unauthorized);
    assert_eq!(ledger.withdraw(ADDR2, ADDR1, &token, 5).unwrap_err(), LendError::Unauthorized);
    assert_eq!(
        ledger.borrow(ADDR2, ADDR1, &token, 5, &token).unwrap_err(),
        LendError::Unauthorized
    );
    assert_eq!(ledger.repay(ADDR2, ADDR1, &token, 5).unwrap_err(), LendError::Unauthorized);
}

#[test]
fn test_missing_account() {
    let mut ledger = Ledger::new();
    let token = Token::Native;

    assert_eq!(
        ledger.deposit(ADDR1, ADDR1, &token, 5).unwrap_err(),
        LendError::AccountDoesNotExist
    );
    assert_eq!(
        ledger.withdraw(ADDR1, ADDR1, &token, 5).unwrap_err(),
        LendError::AccountDoesNotExist
    );
    assert_eq!(
        ledger.borrow(ADDR1, ADDR1, &token, 5, &token).unwrap_err(),
        LendError::AccountDoesNotExist
    );
    assert_eq!(
        ledger.repay(ADDR1, ADDR1, &token, 5).unwrap_err(),
        LendError::AccountDoesNotExist
    );
    assert_eq!(ledger.delete_account(ADDR1).unwrap_err(), LendError::AccountDoesNotExist);
    assert!(ledger.get_account(ADDR1).is_none());
    assert!(ledger.get_balance(ADDR1).is_none());
    assert_eq!(
        ledger
            .liquidate(ADDR2, ADDR1, &token, &token)
            .unwrap_err(),
        LendError::AccountDoesNotExist
    );
}

#[test]
fn test_deposit_overflow() {
    let mut ledger = Ledger::new();
    ledger.create_account(ADDR1).unwrap();
    let token = Token::Native;

    ledger.deposit(ADDR1, ADDR1, &token, u128::MAX).unwrap();
    let err = ledger.deposit(ADDR1, ADDR1, &token, 1).unwrap_err();
    assert_eq!(err, LendError::MathError);
    assert_eq!(ledger.get_balance(ADDR1).unwrap().balance, u128::MAX);
}

#[test]
fn test_borrow_exact_collateral_rounding() {
    let mut ledger = Ledger::new();
    ledger.create_account(ADDR1).unwrap();
    let native = Token::Native;
    let usdc = Token::Foreign("usdc".to_string());
    ledger.deposit(ADDR1, ADDR1, &native, 1000).unwrap();

    // floor(99 * 100 / 80) = floor(123.75) = 123.
    ledger.borrow(ADDR1, ADDR1, &usdc, 99, &native).unwrap();
    assert_eq!(ledger.get_collateral(ADDR1, &native), Some(123));
    assert_eq!(ledger.get_balance(ADDR1).unwrap().balance, 877);
}

#[test]
fn test_borrow_insufficient_collateral_funds() {
    let mut ledger = Ledger::new();
    ledger.create_account(ADDR1).unwrap();
    let native = Token::Native;
    let usdc = Token::Foreign("usdc".to_string());
    ledger.deposit(ADDR1, ADDR1, &native, 124).unwrap();

    // Borrowing 100 needs 125 of collateral; only 124 is there.
    let err = ledger.borrow(ADDR1, ADDR1, &usdc, 100, &native).unwrap_err();
    assert_eq!(err, LendError::InsufficientFunds);
    assert_eq!(ledger.get_balance(ADDR1).unwrap().balance, 124);
    assert_eq!(ledger.get_collateral(ADDR1, &native), None);
}

#[test]
fn test_repay_more_than_outstanding() {
    let mut ledger = Ledger::new();
    ledger.create_account(ADDR1).unwrap();
    let native = Token::Native;
    let usdc = Token::Foreign("usdc".to_string());
    ledger.deposit(ADDR1, ADDR1, &native, 1000).unwrap();
    ledger.borrow(ADDR1, ADDR1, &usdc, 100, &native).unwrap();

    let err = ledger.repay(ADDR1, ADDR1, &usdc, 101).unwrap_err();
    assert_eq!(err, LendError::InsufficientFunds);
    assert_eq!(ledger.get_borrowed(ADDR1, &usdc), Some(100));
    assert_eq!(ledger.get_account(ADDR1).unwrap().debt, 100);
}

#[test]
fn test_borrow_collateral_overflow() {
    let mut ledger = Ledger::new();
    ledger.create_account(ADDR1).unwrap();
    let native = Token::Native;
    let usdc = Token::Foreign("usdc".to_string());
    ledger.deposit(ADDR1, ADDR1, &native, 1000).unwrap();

    // The required collateral of this borrow cannot be computed in the
    // unsigned representation.
    let err = ledger.borrow(ADDR1, ADDR1, &usdc, u128::MAX, &native).unwrap_err();
    assert_eq!(err, LendError::MathError);
    assert_eq!(ledger.get_balance(ADDR1).unwrap().balance, 1000);
}

#[test]
fn test_liquidate_clears_position() {
    let mut ledger = Ledger::new();
    ledger.create_account(ADDR1).unwrap();
    let atom = Token::Foreign("atom".to_string());
    let usdc = Token::Foreign("usdc".to_string());
    ledger.deposit(ADDR1, ADDR1, &atom, 200).unwrap();
    ledger.borrow(ADDR1, ADDR1, &usdc, 100, &atom).unwrap();

    let receipt = ledger.liquidate(ADDR2, ADDR1, &usdc, &atom).unwrap();
    assert_eq!(receipt.liquidator, ADDR2);
    assert_eq!(receipt.borrower, ADDR1);
    assert_eq!(receipt.debt_token, "usdc");
    assert_eq!(receipt.debt_amount, 100);
    assert_eq!(receipt.collateral_token, "atom");
    assert_eq!(receipt.collateral_amount, 125);

    assert_eq!(ledger.get_borrowed(ADDR1, &usdc), None);
    assert_eq!(ledger.get_collateral(ADDR1, &atom), None);
    assert_eq!(ledger.get_account(ADDR1).unwrap().debt, 0);
}

#[test]
fn test_address_fits_keys() {
    // The position keys carry the owner under a 16-bit length prefix.
    assert!(address_fits_keys(ADDR1));
    assert!(address_fits_keys(&"a".repeat(65535)));
    assert!(!address_fits_keys(&"a".repeat(65536)));
}

#[test]
fn test_debt_matches_borrow_records() {
    let mut ledger = Ledger::new();
    ledger.create_account(ADDR1).unwrap();
    let native = Token::Native;
    let usdc = Token::Foreign("usdc".to_string());
    let atom = Token::Foreign("atom".to_string());
    ledger.deposit(ADDR1, ADDR1, &native, 1000).unwrap();

    // The debt always equals the sum of the outstanding borrow records.
    ledger.borrow(ADDR1, ADDR1, &usdc, 100, &native).unwrap();
    ledger.borrow(ADDR1, ADDR1, &atom, 40, &native).unwrap();
    assert_eq!(ledger.get_account(ADDR1).unwrap().debt, 140);
    assert_eq!(ledger.get_borrowed(ADDR1, &usdc), Some(100));
    assert_eq!(ledger.get_borrowed(ADDR1, &atom), Some(40));

    ledger.repay(ADDR1, ADDR1, &atom, 40).unwrap();
    assert_eq!(ledger.get_account(ADDR1).unwrap().debt, 100);
    assert_eq!(ledger.get_borrowed(ADDR1, &atom), None);

    ledger.liquidate(ADDR2, ADDR1, &usdc, &native).unwrap();
    assert_eq!(ledger.get_account(ADDR1).unwrap().debt, 0);
    assert_eq!(ledger.get_borrowed(ADDR1, &usdc), None);
}

#[test]
fn test_example_scenario() {
    // Create an account, deposit 1000, borrow 100 against native collateral
    // at the 80% ratio, repay in full, then delete the account.
    let mut ledger = Ledger::new();
    let native = Token::Native;
    let usdc = Token::Foreign("usdc".to_string());

    ledger.create_account(ADDR1).unwrap();
    ledger.deposit(ADDR1, ADDR1, &native, 1000).unwrap();
    ledger.borrow(ADDR1, ADDR1, &usdc, 100, &native).unwrap();

    let account = ledger.get_account(ADDR1).unwrap();
    assert_eq!(account.balance, 875);
    assert_eq!(account.debt, 100);
    assert_eq!(ledger.get_collateral(ADDR1, &native), Some(125));

    // Deletion is refused while debt is outstanding.
    assert_eq!(ledger.delete_account(ADDR1).unwrap_err(), LendError::InsufficientFunds);

    ledger.repay(ADDR1, ADDR1, &usdc, 100).unwrap();
    assert_eq!(ledger.get_account(ADDR1).unwrap().debt, 0);
    assert_eq!(ledger.get_borrowed(ADDR1, &usdc), None);

    let rec = ledger.delete_account(ADDR1).unwrap();
    assert_eq!(rec.action, OpAction::DeleteAccount);
    assert!(ledger.get_account(ADDR1).is_none());
}
