//! Which destinations may receive a sponsored transaction.
//!
//! An account that has delegated its execution to a contract carries a
//! delegation designator as its bytecode: three fixed bytes followed by the
//! twenty bytes of the delegate's address. The relay sponsors calls only to
//! such accounts, and transactions that install a delegation themselves.

use vstd::prelude::*;
use vstd::slice::slice_subrange;
use crate::error::TraverseWalletError;
use crate::primitives::{zero_address, Address, TxKind};
use crate::request::TransactionRequest;

verus! {

/// The capability to perform delegations sponsored by the service: the
/// addresses that it is willing to treat as delegation targets.
///
/// The order of the addresses carries no meaning, nor does a repetition.
#[derive(Debug, Clone, PartialEq, Eq)]
pub struct DelegationCapability {
    /// A list of valid delegation contracts.
    pub addresses: Vec<Address>,
}

impl View for DelegationCapability {
    type V = Set<Seq<u8>>;

    open spec fn view(&self) -> Set<Seq<u8>> {
        Set::new(
            |address: Seq<u8>|
                exists|i: int|
                    0 <= i < self.addresses@.len() && (#[trigger] self.addresses@[i])@ == address,
        )
    }
}

/// The three bytes that open a delegation designator.
pub open spec fn designator_prefix() -> Seq<u8> {
    seq![0xefu8, 0x01u8, 0x00u8]
}

/// Whether the bytecode is a delegation designator: 23 bytes, of which the
/// first three are the prefix.
pub open spec fn is_designator(code: Seq<u8>) -> bool {
    code.len() == 23 && code[0] == 0xefu8 && code[1] == 0x01u8 && code[2] == 0x00u8
}

/// The address that the bytecode delegates to, if it is a delegation
/// designator: the twenty bytes after the prefix.
pub open spec fn delegate_of(code: Seq<u8>) -> Option<Seq<u8>> {
    if is_designator(code) {
        Some(code.subrange(3, 23))
    } else {
        None
    }
}

/// Whether the bytecode marks an account with a delegation in force: a
/// designator whose delegate is not the zero address, which would stand for
/// a delegation that was cleared.
pub open spec fn is_live_delegation(code: Seq<u8>) -> bool {
    is_designator(code) && code.subrange(3, 23) != zero_address()
}

/// A designator is the prefix followed by a twenty-byte address, and
/// nothing else is one.
pub proof fn lemma_designator_layout(code: Seq<u8>)
    ensures
        is_designator(code) <==> exists|address: Seq<u8>|
            address.len() == 20 && code == designator_prefix() + address,
        forall|address: Seq<u8>|
            address.len() == 20 && code == designator_prefix() + address ==> delegate_of(code)
                == Some(address),
{
    if is_designator(code) {
        let address = code.subrange(3, 23);
        assert(code =~= designator_prefix() + address);
    }
    assert forall|address: Seq<u8>|
        address.len() == 20 && code == designator_prefix() + address implies delegate_of(code)
        == Some(address) by {
        assert(code.subrange(3, 23) =~= address);
    }
}

/// Reads the delegate's address out of an account's bytecode.
pub fn delegation_target(code: &[u8]) -> (target: Option<Address>)
    ensures
        target is Some <==> is_designator(code@),
        target is Some ==> Some(target.unwrap()@) == delegate_of(code@),
{
    if code.len() == 23 && code[0] == 0xef && code[1] == 0x01 && code[2] == 0x00 {
        Some(Address::from_slice(slice_subrange(code, 3, 23)))
    } else {
        None
    }
}

/// Decides from an account's bytecode whether calls to it are sponsored.
///
/// They are exactly when the account has a delegation in force. Every other
/// bytecode, the empty one included, is an illegal destination.
pub fn check_delegation(code: &[u8]) -> (checked: Result<(), TraverseWalletError>)
    ensures
        checked is Ok <==> is_live_delegation(code@),
        checked is Err ==> checked.unwrap_err() == TraverseWalletError::IllegalDestination,
{
    match delegation_target(code) {
        Some(delegate) => {
            // the delegation was cleared
            if delegate.is_zero() {
                Err(TraverseWalletError::IllegalDestination)
            } else {
                Ok(())
            }
        },
        // not a delegation designator, or no code at all
        None => Err(TraverseWalletError::IllegalDestination),
    }
}

/// What a request's own fields say of its destination.
#[derive(Clone, Copy, Debug, PartialEq, Eq)]
pub enum Destination {
    /// The request installs account code: the service performs the
    /// delegation itself, and no bytecode needs to be looked at.
    SetCode,
    /// The request calls this account, whose bytecode decides.
    Call(Address),
    /// The request creates a contract or names no destination: never
    /// sponsored.
    Illegal,
}

/// What a request's own fields say of its destination.
pub open spec fn destination_of(request: TransactionRequest) -> Destination {
    if request.has_authorization_list {
        Destination::SetCode
    } else {
        match request.to {
            Some(TxKind::Call(address)) => Destination::Call(address),
            _ => Destination::Illegal,
        }
    }
}

/// Sorts a request by its destination, before any bytecode is fetched.
pub fn classify_destination(request: &TransactionRequest) -> (destination: Destination)
    ensures
        destination == destination_of(*request),
{
    if request.has_authorization_list {
        // a transaction that installs account code is let through
        Destination::SetCode
    } else {
        match request.to {
            Some(TxKind::Call(address)) => Destination::Call(address),
            // creation transactions are not sponsored
            _ => Destination::Illegal,
        }
    }
}

/// Whether a request is authorized, given the bytecode found at the account
/// that it calls. The bytecode counts only for a call without an
/// authorization list.
pub open spec fn authorizes(request: TransactionRequest, code: Seq<u8>) -> bool {
    match destination_of(request) {
        Destination::SetCode => true,
        Destination::Call(_) => is_live_delegation(code),
        Destination::Illegal => false,
    }
}

/// Whether the request is a call to an account.
pub open spec fn is_call(request: TransactionRequest) -> bool {
    request.to is Some && request.to.unwrap() is Call
}

/// What decides the authorization of a request, case by case.
///
/// - With an authorization list the request is authorized, whatever its
///   destination and whatever bytecode is there.
/// - Without one, a request that creates a contract or names no destination
///   is never authorized, whatever the bytecode.
/// - Without one, a call is authorized exactly when the bytecode of the
///   account called is the designator prefix followed by twenty bytes that
///   are not all zero.
pub proof fn law_authorization(request: TransactionRequest, code: Seq<u8>)
    ensures
        request.has_authorization_list ==> authorizes(request, code),
        !request.has_authorization_list && !is_call(request) ==> !authorizes(request, code),
        !request.has_authorization_list && is_call(request) ==> (authorizes(request, code)
            <==> exists|delegate: Seq<u8>|
            delegate.len() == 20 && delegate != zero_address() && code == designator_prefix()
                + delegate),
{
    lemma_designator_layout(code);
    if is_live_delegation(code) {
        let delegate = code.subrange(3, 23);
        assert(code =~= designator_prefix() + delegate);
    }
    assert forall|delegate: Seq<u8>|
        delegate.len() == 20 && delegate != zero_address() && code == designator_prefix()
            + delegate implies is_live_delegation(code) by {
        assert(code.subrange(3, 23) =~= delegate);
    }
}

/// Decides whether a request's destination may be sponsored, given the
/// bytecode fetched at the account that it calls.
pub fn authorize(request: &TransactionRequest, code: &[u8]) -> (checked: Result<
    (),
    TraverseWalletError,
>)
    ensures
        checked is Ok <==> authorizes(*request, code@),
        checked is Err ==> checked.unwrap_err() == TraverseWalletError::IllegalDestination,
{
    match classify_destination(request) {
        Destination::SetCode => Ok(()),
        Destination::Call(_) => check_delegation(code),
        Destination::Illegal => Err(TraverseWalletError::IllegalDestination),
    }
}

} // verus!
