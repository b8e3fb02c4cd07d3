use eulend::error::LendError;
use eulend::euclid::QueryPoolsMsg;
use eulend::euclid::query_all_tokens;
use eulend::euclid::query_escrow;
use eulend::euclid::query_escrows;
use eulend::euclid::query_pools;
use eulend::euclid::simulate_swap;
use eulend::token::Token;
use eulend::token_wrapper::WrapOutcome;
use eulend::token_wrapper::WrapRegistry;

#[test]
fn test_token_from_denom() {
    assert!(Token::from_denom("native").is_native());
    let t = Token::from_denom("uatom");
    assert!(!t.is_native());
    assert_eq!(t.denom(), "uatom");
    assert_eq!(Token::Native.denom(), "native");
}

#[test]
fn test_register_and_query_wrapped() {
    let mut reg = WrapRegistry::new();
    assert_eq!(
        reg.query_wrapped_token("uatom").unwrap_err(),
        LendError::TokenNotFound
    );

    assert!(reg.register_wrapped("uatom", "watom"));
    assert_eq!(reg.query_wrapped_token("uatom").unwrap().wrapped_token, "watom");

    // A second registration for the same token changes nothing.
    assert!(!reg.register_wrapped("uatom", "watom2"));
    assert_eq!(reg.query_wrapped_token("uatom").unwrap().wrapped_token, "watom");
}

#[test]
fn test_wrap_decision() {
    let mut reg = WrapRegistry::new();
    match reg.wrap("uatom", 70) {
        WrapOutcome::Create { token } => assert_eq!(token, "uatom"),
        o => panic!("unexpected outcome: {:?}", o),
    }

    reg.register_wrapped("uatom", "watom");
    match reg.wrap("uatom", 70) {
        WrapOutcome::Mint { wrapped_token, amount } => {
            assert_eq!(wrapped_token, "watom");
            assert_eq!(amount, 70);
        }
        o => panic!("unexpected outcome: {:?}", o),
    }
}

#[test]
fn test_unwrap_and_receive() {
    let mut reg = WrapRegistry::new();
    reg.register_wrapped("uatom", "watom");

    let released = reg.unwrap_token("watom", 30).unwrap();
    assert_eq!(released.denom, "uatom");
    assert_eq!(released.amount, 30);
    assert_eq!(reg.unwrap_token("wosmo", 30).unwrap_err(), LendError::WrongToken);

    let released = reg.receive_cw20("watom", 12).unwrap();
    assert_eq!(released.denom, "uatom");
    assert_eq!(released.amount, 12);
    assert_eq!(reg.receive_cw20("someone", 12).unwrap_err(), LendError::WrongToken);
}

#[test]
fn test_error_messages() {
    assert_eq!(LendError::Unauthorized.message(), "Unauthorized");
    assert_eq!(LendError::InsufficientFunds.message(), "Insufficient funds");
    assert_eq!(LendError::TokenNotFound.message(), "Token do not exist");
    assert_eq!(LendError::AccountExists.message(), "Account already exists");
    assert_eq!(LendError::AccountDoesNotExist.message(), "Account does not exist");
    assert_eq!(LendError::InsufficientCollateral.message(), "Insufficient collateral");
    assert_eq!(LendError::NoRepayment.message(), "No repayments needed");
    assert_eq!(LendError::MathError.message(), "Values donot match");
    assert_eq!(LendError::WrongToken.message(), "Wrong token");
    assert_eq!(LendError::PriceUnavailable.message(), "Price unavailable");
}

#[test]
fn test_fixed_catalogues() {
    let tokens = query_all_tokens();
    assert_eq!(tokens.len(), 3);
    assert_eq!(tokens[0].token, "eth");
    assert_eq!(tokens[0].chain_uid, "ethereum");
    assert_eq!(tokens[2].token, "atom");

    let escrows = query_escrows("eth");
    assert_eq!(escrows.len(), 1);
    assert_eq!(escrows[0].balance, "10056388656303");
    assert_eq!(escrows[0].chain_id, "localwasma-1");

    let pools = query_pools(&QueryPoolsMsg);
    assert_eq!(pools.len(), 2);
    assert_eq!(pools[0].token_1, "osmo");
    assert_eq!(pools[0].token_2, "sol");
    assert_eq!(pools[1].token_2, "usdt");

    let escrow = query_escrow("nibiru", "usdt");
    assert_eq!(escrow.denoms, vec!["uusdta".to_string()]);

    let swap = simulate_swap("osmo", 500, "sol");
    assert_eq!(swap.amount_out, 1000);
    assert_eq!(swap.asset_out, "sol");
}
