use traverse::error::{append_decimal, ErrorObject, TraverseWalletError, INVALID_PARAMS_CODE};

#[test]
fn each_error_has_its_text() {
    assert_eq!(TraverseWalletError::ValueNotZero.message(), "tx value not zero");
    assert_eq!(TraverseWalletError::FromSet.message(), "tx from field is set");
    assert_eq!(TraverseWalletError::NonceSet.message(), "tx nonce is set");
    assert_eq!(
        TraverseWalletError::IllegalDestination.message(),
        "the destination of the transaction is not a delegated account"
    );
    assert_eq!(TraverseWalletError::InvalidTransactionRequest.message(), "invalid tx request");
    assert_eq!(
        TraverseWalletError::GasEstimateTooHigh { estimate: 350_000 }.message(),
        "request would use too much gas: estimated 350000"
    );
    assert_eq!(
        TraverseWalletError::InternalError(String::from("connection refused")).message(),
        "connection refused"
    );
}

#[test]
fn estimate_is_written_in_decimal() {
    let text = |estimate: u64| TraverseWalletError::GasEstimateTooHigh { estimate }.message();
    assert_eq!(text(0), "request would use too much gas: estimated 0");
    assert_eq!(text(9), "request would use too much gas: estimated 9");
    assert_eq!(text(10), "request would use too much gas: estimated 10");
    assert_eq!(text(1_000_001), "request would use too much gas: estimated 1000001");
    assert_eq!(
        text(u64::MAX),
        "request would use too much gas: estimated 18446744073709551615"
    );
}

#[test]
fn decimal_is_appended_to_what_is_there() {
    let mut text = String::from("n=");
    append_decimal(&mut text, 1234567890);
    assert_eq!(text, "n=1234567890");
    append_decimal(&mut text, 0);
    assert_eq!(text, "n=12345678900");
    for n in [1u64, 7, 42, 99, 100, 101, 65_535, 4_294_967_296] {
        let mut text = String::new();
        append_decimal(&mut text, n);
        assert_eq!(text, n.to_string());
    }
}

#[test]
fn every_error_is_reported_as_invalid_params() {
    assert_eq!(INVALID_PARAMS_CODE, -32602);
    let errors = vec![
        TraverseWalletError::ValueNotZero,
        TraverseWalletError::FromSet,
        TraverseWalletError::NonceSet,
        TraverseWalletError::IllegalDestination,
        TraverseWalletError::InvalidTransactionRequest,
        TraverseWalletError::GasEstimateTooHigh { estimate: 400_000 },
        TraverseWalletError::InternalError(String::from("boom")),
    ];
    for error in errors {
        let object = error.to_error_object();
        assert_eq!(object, ErrorObject { code: -32602, message: error.message() });
    }
}
