use traverse::delegation::{
    authorize, check_delegation, classify_destination, delegation_target, DelegationCapability,
    Destination,
};
use traverse::error::TraverseWalletError;
use traverse::primitives::{Address, TxKind};
use traverse::request::TransactionRequest;

fn designator(delegate: [u8; 20]) -> Vec<u8> {
    let mut code = vec![0xef, 0x01, 0x00];
    code.extend_from_slice(&delegate);
    code
}

#[test]
fn designator_yields_its_delegate() {
    let mut delegate = [0u8; 20];
    for (i, byte) in delegate.iter_mut().enumerate() {
        *byte = 0xa0 + i as u8;
    }
    assert_eq!(delegation_target(&designator(delegate)), Some(Address { bytes: delegate }));
}

#[test]
fn designator_must_have_23_bytes() {
    let mut code = designator([7; 20]);
    code.push(0);
    assert_eq!(delegation_target(&code), None);
    code.truncate(22);
    assert_eq!(delegation_target(&code), None);
    assert_eq!(delegation_target(&[0xef, 0x01, 0x00]), None);
    assert_eq!(delegation_target(&[]), None);
}

#[test]
fn designator_must_start_with_the_prefix() {
    for i in 0..3 {
        let mut code = designator([7; 20]);
        code[i] ^= 0x10;
        assert_eq!(delegation_target(&code), None);
    }
}

#[test]
fn live_delegation_is_accepted() {
    assert_eq!(check_delegation(&designator([1; 20])), Ok(()));
    let mut delegate = [0u8; 20];
    delegate[19] = 1;
    assert_eq!(check_delegation(&designator(delegate)), Ok(()));
}

#[test]
fn cleared_delegation_is_illegal() {
    assert_eq!(
        check_delegation(&designator([0; 20])),
        Err(TraverseWalletError::IllegalDestination)
    );
}

#[test]
fn empty_and_plain_code_are_illegal() {
    assert_eq!(check_delegation(&[]), Err(TraverseWalletError::IllegalDestination));
    assert_eq!(
        check_delegation(&[0x60, 0x80, 0x60, 0x40, 0x52]),
        Err(TraverseWalletError::IllegalDestination)
    );
    assert_eq!(check_delegation(&[0x11; 23]), Err(TraverseWalletError::IllegalDestination));
    let mut long = designator([1; 20]);
    long.push(1);
    assert_eq!(check_delegation(&long), Err(TraverseWalletError::IllegalDestination));
}

#[test]
fn destinations_are_sorted_by_the_request() {
    let target = Address { bytes: [4; 20] };
    let call = TransactionRequest::default().to(target);
    assert_eq!(classify_destination(&call), Destination::Call(target));

    let creation = TransactionRequest { to: Some(TxKind::Create), ..TransactionRequest::default() };
    assert_eq!(classify_destination(&creation), Destination::Illegal);
    assert_eq!(classify_destination(&TransactionRequest::default()), Destination::Illegal);

    assert_eq!(classify_destination(&call.authorization_list(true)), Destination::SetCode);
    assert_eq!(classify_destination(&creation.authorization_list(true)), Destination::SetCode);
    assert_eq!(
        classify_destination(&TransactionRequest::default().authorization_list(true)),
        Destination::SetCode
    );
}

#[test]
fn authorization_follows_the_destination() {
    let target = Address { bytes: [4; 20] };
    let call = TransactionRequest::default().to(target);
    assert_eq!(authorize(&call, &designator([1; 20])), Ok(()));
    assert_eq!(
        authorize(&call, &designator([0; 20])),
        Err(TraverseWalletError::IllegalDestination)
    );
    assert_eq!(authorize(&call, &[]), Err(TraverseWalletError::IllegalDestination));

    let creation = TransactionRequest::default();
    assert_eq!(
        authorize(&creation, &designator([1; 20])),
        Err(TraverseWalletError::IllegalDestination)
    );

    let set_code = call.authorization_list(true);
    assert_eq!(authorize(&set_code, &[]), Ok(()));
    assert_eq!(authorize(&set_code, &designator([0; 20])), Ok(()));
}

#[test]
fn capability_holds_its_addresses() {
    let capability = DelegationCapability {
        addresses: vec![Address { bytes: [1; 20] }, Address { bytes: [2; 20] }],
    };
    assert_eq!(capability.addresses.len(), 2);
    assert_eq!(capability.clone(), capability);
}
