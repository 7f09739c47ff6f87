use traverse::error::TraverseWalletError;
use traverse::primitives::{Address, U256};
use traverse::request::{validate_tx_request, TransactionRequest};

#[test]
fn no_value_allowed() {
    assert!(matches!(
        validate_tx_request(&TransactionRequest::default().value(U256::from(1))),
        Err(TraverseWalletError::ValueNotZero)
    ));

    assert!(matches!(
        validate_tx_request(&TransactionRequest::default().value(U256::from(0))),
        Ok(())
    ));
}

#[test]
fn no_from_allowed() {
    assert!(matches!(
        validate_tx_request(&TransactionRequest::default().from(Address::zero())),
        Err(TraverseWalletError::FromSet)
    ));

    assert!(matches!(validate_tx_request(&TransactionRequest::default()), Ok(())));
}

#[test]
fn no_nonce_allowed() {
    assert!(matches!(
        validate_tx_request(&TransactionRequest::default().nonce(1)),
        Err(TraverseWalletError::NonceSet)
    ));

    assert!(matches!(validate_tx_request(&TransactionRequest::default()), Ok(())));
}

#[test]
fn default_request_is_empty() {
    let request = TransactionRequest::default();
    assert_eq!(request.from, None);
    assert_eq!(request.to, None);
    assert_eq!(request.gas_price, None);
    assert_eq!(request.max_fee_per_gas, None);
    assert_eq!(request.max_priority_fee_per_gas, None);
    assert_eq!(request.gas, None);
    assert_eq!(request.value, None);
    assert_eq!(request.nonce, None);
    assert_eq!(request.chain_id, None);
    assert!(!request.has_authorization_list);
}

#[test]
fn value_in_a_high_limb_counts() {
    let request = TransactionRequest::default().value(U256::from_limbs([0, 0, 0, 1]));
    assert_eq!(validate_tx_request(&request), Err(TraverseWalletError::ValueNotZero));
    let request = TransactionRequest::default().value(U256::from_limbs([0, 1, 0, 0]));
    assert_eq!(validate_tx_request(&request), Err(TraverseWalletError::ValueNotZero));
}

#[test]
fn value_is_checked_before_sender_and_nonce() {
    let request = TransactionRequest::default()
        .value(U256::from(7))
        .from(Address::zero())
        .nonce(3);
    assert_eq!(validate_tx_request(&request), Err(TraverseWalletError::ValueNotZero));
}

#[test]
fn sender_is_checked_before_nonce() {
    let request = TransactionRequest::default().from(Address::zero()).nonce(3);
    assert_eq!(validate_tx_request(&request), Err(TraverseWalletError::FromSet));
    let request = TransactionRequest::default().value(U256::zero()).from(Address::zero());
    assert_eq!(validate_tx_request(&request), Err(TraverseWalletError::FromSet));
}

#[test]
fn nonce_is_refused_with_zero_value() {
    let request = TransactionRequest::default().value(U256::zero()).nonce(0);
    assert_eq!(validate_tx_request(&request), Err(TraverseWalletError::NonceSet));
}

#[test]
fn other_fields_do_not_matter_to_validation() {
    let mut request = TransactionRequest::default()
        .to(Address { bytes: [9; 20] })
        .authorization_list(true);
    request.gas = Some(21_000);
    request.gas_price = Some(5);
    request.max_fee_per_gas = Some(6);
    request.max_priority_fee_per_gas = Some(1);
    request.chain_id = Some(10);
    assert_eq!(validate_tx_request(&request), Ok(()));
}

#[test]
fn builders_set_one_field_each() {
    let target = Address { bytes: [3; 20] };
    let request = TransactionRequest::default().to(target);
    assert_eq!(request.to, Some(traverse::primitives::TxKind::Call(target)));
    assert_eq!(TransactionRequest { to: None, ..request }, TransactionRequest::default());

    let request = TransactionRequest::default().nonce(41);
    assert_eq!(request.nonce, Some(41));
    assert_eq!(TransactionRequest { nonce: None, ..request }, TransactionRequest::default());

    let request = TransactionRequest::default().value(U256::from(5));
    assert_eq!(request.value, Some(U256 { limbs: [5, 0, 0, 0] }));

    let request = TransactionRequest::default().from(target);
    assert_eq!(request.from, Some(target));

    let request = TransactionRequest::default().authorization_list(true);
    assert!(request.has_authorization_list);
    assert!(!request.authorization_list(false).has_authorization_list);
}
