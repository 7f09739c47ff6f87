//! The transaction request as the relay sees it, and the checks that need
//! nothing but the request.

use vstd::prelude::*;
use crate::error::TraverseWalletError;
use crate::primitives::{Address, TxKind, U256};

verus! {

/// The fields of a transaction request that sponsorship reads or fills.
///
/// A request comes from an untrusted caller. The caller's payload (call
/// data, access list, the signed authorizations themselves) is not read by
/// any rule of the relay: it stays with the service, which hands it to the
/// backend unchanged, and only its presence is recorded here.
#[derive(Clone, Copy, Debug, PartialEq, Eq)]
pub struct TransactionRequest {
    /// The sender. Always supplied by the service, never by the caller.
    pub from: Option<Address>,
    /// The destination: a call, a contract creation, or left open.
    pub to: Option<TxKind>,
    /// The flat gas price of a transaction outside the fee market.
    pub gas_price: Option<u128>,
    /// The most that the sender pays per unit of gas.
    pub max_fee_per_gas: Option<u128>,
    /// The most that the sender pays the block producer per unit of gas.
    pub max_priority_fee_per_gas: Option<u128>,
    /// The gas limit.
    pub gas: Option<u64>,
    /// The value transferred with the transaction.
    pub value: Option<U256>,
    /// The sender's nonce. Assigned by the service, never by the caller.
    pub nonce: Option<u64>,
    /// The chain that the transaction is for.
    pub chain_id: Option<u64>,
    /// Whether the request carries an authorization list, which makes it a
    /// transaction that installs account code.
    pub has_authorization_list: bool,
}

/// The request with no field set.
pub open spec fn empty_request() -> TransactionRequest {
    TransactionRequest {
        from: None,
        to: None,
        gas_price: None,
        max_fee_per_gas: None,
        max_priority_fee_per_gas: None,
        gas: None,
        value: None,
        nonce: None,
        chain_id: None,
        has_authorization_list: false,
    }
}

impl Default for TransactionRequest {
    fn default() -> (request: TransactionRequest)
        ensures
            request == empty_request(),
    {
        TransactionRequest {
            from: None,
            to: None,
            gas_price: None,
            max_fee_per_gas: None,
            max_priority_fee_per_gas: None,
            gas: None,
            value: None,
            nonce: None,
            chain_id: None,
            has_authorization_list: false,
        }
    }
}

impl TransactionRequest {
    /// Sets the value that the transaction transfers.
    pub fn value(self, value: U256) -> (request: TransactionRequest)
        ensures
            request == (TransactionRequest { value: Some(value), ..self }),
    {
        TransactionRequest { value: Some(value), ..self }
    }

    /// Sets the sender.
    pub fn from(self, from: Address) -> (request: TransactionRequest)
        ensures
            request == (TransactionRequest { from: Some(from), ..self }),
    {
        TransactionRequest { from: Some(from), ..self }
    }

    /// Sets the nonce.
    pub fn nonce(self, nonce: u64) -> (request: TransactionRequest)
        ensures
            request == (TransactionRequest { nonce: Some(nonce), ..self }),
    {
        TransactionRequest { nonce: Some(nonce), ..self }
    }

    /// Makes the transaction a call to the given account.
    pub fn to(self, to: Address) -> (request: TransactionRequest)
        ensures
            request == (TransactionRequest { to: Some(TxKind::Call(to)), ..self }),
    {
        TransactionRequest { to: Some(TxKind::Call(to)), ..self }
    }

    /// Records whether the request carries an authorization list.
    pub fn authorization_list(self, present: bool) -> (request: TransactionRequest)
        ensures
            request == (TransactionRequest { has_authorization_list: present, ..self }),
    {
        TransactionRequest { has_authorization_list: present, ..self }
    }
}

/// Whether the request would transfer value: its value is set and not zero.
pub open spec fn transfers_value(request: TransactionRequest) -> bool {
    request.value is Some && request.value.unwrap()@ > 0
}

/// The first rule that the request breaks, if any: it must transfer no
/// value, name no sender, and name no nonce, checked in this order.
pub open spec fn validation_error(request: TransactionRequest) -> Option<TraverseWalletError> {
    if transfers_value(request) {
        Some(TraverseWalletError::ValueNotZero)
    } else if request.from is Some {
        Some(TraverseWalletError::FromSet)
    } else if request.nonce is Some {
        Some(TraverseWalletError::NonceSet)
    } else {
        None
    }
}

/// Checks the fields of a request that must hold whatever the chain's state.
///
/// The request is accepted exactly when `validation_error` finds no broken
/// rule, and is otherwise rejected with the error it names.
pub fn validate_tx_request(request: &TransactionRequest) -> (checked: Result<
    (),
    TraverseWalletError,
>)
    ensures
        checked is Ok <==> validation_error(*request) is None,
        checked is Err ==> validation_error(*request) == Some(checked.unwrap_err()),
{
    // reject transactions that have a non-zero value to prevent draining the service.
    let transfers = match &request.value {
        Some(value) => !value.is_zero(),
        None => false,
    };
    if transfers {
        return Err(TraverseWalletError::ValueNotZero);
    }
    // reject transactions that have from set, as this will be the service.
    if request.from.is_some() {
        return Err(TraverseWalletError::FromSet);
    }
    // reject transaction requests that have nonce set, as this is managed by the service.
    if request.nonce.is_some() {
        return Err(TraverseWalletError::NonceSet);
    }
    Ok(())
}

} // verus!
