//! The sponsorship coordinator: the decisions of one request, one backend
//! answer at a time.
//!
//! Serving a request takes up to four backend operations (a bytecode
//! lookup, the wait for the signing permit, an estimation, signing and
//! submission), each of which may take long. The coordinator never performs
//! them. It is a function from the state of a request and the answer that
//! just arrived to the next state and the operation to perform next. The
//! service performs the operation and comes back with its answer, until the
//! coordinator says what to reply.

use vstd::prelude::*;
use crate::delegation::{
    check_delegation,
    classify_destination,
    destination_of,
    is_live_delegation,
    Destination,
};
use crate::error::TraverseWalletError;
use crate::primitives::{Address, TxHash};
use crate::request::{validate_tx_request, validation_error, TransactionRequest};
use crate::upstream::{check_gas_estimate, Eip1559Estimation, GAS_ESTIMATE_CEILING};

verus! {

/// How far the serving of a request has come.
#[derive(Clone, Copy, Debug, PartialEq, Eq, Structural)]
pub enum Stage {
    /// The request has arrived and nothing was decided yet.
    Received,
    /// The bytecode at the destination was asked for.
    AwaitingCode,
    /// The request is authorized and waits for the signing permit.
    AwaitingPermit,
    /// The permit is held and the estimation was asked for.
    AwaitingEstimate,
    /// The permit is held and the transaction was handed over to be signed
    /// and submitted.
    AwaitingSubmission,
    /// The reply was given, and the permit, if it was held, is to be released.
    Finished,
}

impl Stage {
    /// Whether a request at this stage holds the signing permit.
    pub open spec fn holds_permit(self) -> bool {
        self == Stage::AwaitingEstimate || self == Stage::AwaitingSubmission
    }
}

/// One request on its way through the relay.
#[derive(Clone, Copy, Debug, PartialEq, Eq)]
pub struct Sponsorship {
    /// How far the request has come.
    pub stage: Stage,
    /// The request, with the fields that the service has filled so far.
    pub request: TransactionRequest,
}

/// What has just happened to a request.
#[derive(Debug, PartialEq, Eq)]
pub enum Event {
    /// The request has arrived.
    Arrived,
    /// The bytecode lookup has answered.
    Code(Result<Vec<u8>, TraverseWalletError>),
    /// The signing permit was acquired. The backend's signer address comes
    /// with it.
    PermitAcquired(Address),
    /// The estimation has answered, with the gas and the fees.
    Estimated(Result<(u64, Eip1559Estimation), TraverseWalletError>),
    /// Signing and submission have answered.
    Submitted(Result<TxHash, TraverseWalletError>),
}

/// What the service is to do next for a request.
#[derive(Debug, PartialEq, Eq)]
pub enum Action {
    /// Look up the bytecode at this address.
    GetCode(Address),
    /// Wait for the signing permit and take it.
    AcquirePermit,
    /// Estimate gas and fees for this draft.
    Estimate(TransactionRequest),
    /// Sign this transaction and submit it.
    SignAndSend(TransactionRequest),
    /// Release the permit if it is held, and reply to the caller.
    Reply(Result<TxHash, TraverseWalletError>),
}

/// Which of the two request counters to increment.
#[derive(Clone, Copy, Debug, PartialEq, Eq, Structural)]
pub enum Tally {
    /// The request passed every check.
    Valid,
    /// The request was turned down.
    Invalid,
}

/// One decision of the coordinator.
#[derive(Debug, PartialEq, Eq)]
pub struct Decision {
    /// What to do next.
    pub action: Action,
    /// The counter to increment on this decision, if any.
    pub tally: Option<Tally>,
}

/// Whether a request at the given stage waits for this kind of event.
pub open spec fn expects(stage: Stage, event: Event) -> bool {
    match event {
        Event::Arrived => stage == Stage::Received,
        Event::Code(_) => stage == Stage::AwaitingCode,
        Event::PermitAcquired(_) => stage == Stage::AwaitingPermit,
        Event::Estimated(_) => stage == Stage::AwaitingEstimate,
        Event::Submitted(_) => stage == Stage::AwaitingSubmission,
    }
}

/// The request is turned down: it is counted as invalid and the error is
/// the reply.
pub open spec fn turned_down(request: TransactionRequest, error: TraverseWalletError) -> (
    Sponsorship,
    Decision,
) {
    (
        Sponsorship { stage: Stage::Finished, request },
        Decision { action: Action::Reply(Err(error)), tally: Some(Tally::Invalid) },
    )
}

/// The request is authorized: it waits for the permit next.
pub open spec fn authorized(request: TransactionRequest) -> (Sponsorship, Decision) {
    (
        Sponsorship { stage: Stage::AwaitingPermit, request },
        Decision { action: Action::AcquirePermit, tally: None },
    )
}

/// The request as it goes to estimation: for the service's chain, and sent
/// by the signer, so that the estimate is right for contracts that look at
/// the sender.
pub open spec fn drafted(request: TransactionRequest, chain_id: u64, signer: Address)
    -> TransactionRequest {
    TransactionRequest { chain_id: Some(chain_id), from: Some(signer), ..request }
}

/// The request as it goes to signing: with the estimated gas and fees, and
/// without a flat gas price.
pub open spec fn priced(request: TransactionRequest, gas: u64, fees: Eip1559Estimation)
    -> TransactionRequest {
    TransactionRequest {
        gas: Some(gas),
        max_fee_per_gas: Some(fees.max_fee_per_gas),
        max_priority_fee_per_gas: Some(fees.max_priority_fee_per_gas),
        gas_price: None,
        ..request
    }
}

/// The coordinator's rule: the state that follows and the decision taken
/// when the event arrives that the request waits for.
///
/// - On arrival the request's own fields are checked, then its destination
///   is sorted: an authorization list authorizes it at once, a call needs
///   the destination's bytecode, anything else is turned down.
/// - The bytecode must show a delegation in force.
/// - With the permit, the draft gets the chain id and the signer and goes
///   to estimation.
/// - An estimate below the ceiling prices the transaction, the request is
///   counted as valid, and the transaction goes to signing.
/// - Whatever signing and submission answer is the reply.
/// - A backend error ends the request, is counted as invalid unless the
///   request was counted before, and is the reply.
pub open spec fn next(chain_id: u64, session: Sponsorship, event: Event) -> (
    Sponsorship,
    Decision,
) {
    let request = session.request;
    match event {
        Event::Arrived => match validation_error(request) {
            Some(error) => turned_down(request, error),
            None => match destination_of(request) {
                Destination::SetCode => authorized(request),
                Destination::Call(address) => (
                    Sponsorship { stage: Stage::AwaitingCode, request },
                    Decision { action: Action::GetCode(address), tally: None },
                ),
                Destination::Illegal => turned_down(
                    request,
                    TraverseWalletError::IllegalDestination,
                ),
            },
        },
        Event::Code(Ok(code)) => if is_live_delegation(code@) {
            authorized(request)
        } else {
            turned_down(request, TraverseWalletError::IllegalDestination)
        },
        Event::Code(Err(error)) => turned_down(request, error),
        Event::PermitAcquired(signer) => {
            let draft = drafted(request, chain_id, signer);
            (
                Sponsorship { stage: Stage::AwaitingEstimate, request: draft },
                Decision { action: Action::Estimate(draft), tally: None },
            )
        },
        Event::Estimated(Ok((gas, fees))) => if gas >= GAS_ESTIMATE_CEILING {
            turned_down(request, TraverseWalletError::GasEstimateTooHigh { estimate: gas })
        } else {
            let transaction = priced(request, gas, fees);
            (
                Sponsorship { stage: Stage::AwaitingSubmission, request: transaction },
                Decision { action: Action::SignAndSend(transaction), tally: Some(Tally::Valid) },
            )
        },
        Event::Estimated(Err(error)) => turned_down(request, error),
        Event::Submitted(outcome) => (
            Sponsorship { stage: Stage::Finished, request },
            Decision { action: Action::Reply(outcome), tally: None },
        ),
    }
}

impl Sponsorship {
    /// A request that has just arrived.
    pub fn new(request: TransactionRequest) -> (session: Sponsorship)
        ensures
            session == (Sponsorship { stage: Stage::Received, request }),
    {
        Sponsorship { stage: Stage::Received, request }
    }

    /// Whether the request holds the signing permit.
    pub fn holds_permit(&self) -> (held: bool)
        ensures
            held == self.stage.holds_permit(),
    {
        match self.stage {
            Stage::AwaitingEstimate => true,
            Stage::AwaitingSubmission => true,
            _ => false,
        }
    }

    /// Turns the request down with the given error.
    fn turn_down(&mut self, error: TraverseWalletError) -> (decision: Decision)
        ensures
            (*final(self), decision) == turned_down(old(self).request, error),
    {
        self.stage = Stage::Finished;
        Decision { action: Action::Reply(Err(error)), tally: Some(Tally::Invalid) }
    }

    /// Sends the request on to wait for the permit.
    fn authorize(&mut self) -> (decision: Decision)
        ensures
            (*final(self), decision) == authorized(old(self).request),
    {
        self.stage = Stage::AwaitingPermit;
        Decision { action: Action::AcquirePermit, tally: None }
    }
}

/// The sponsored-transaction relay of one service instance.
///
/// It holds the backend for the service to use, and the chain that every
/// sponsored transaction is made for.
#[derive(Debug)]
pub struct TraverseWallet<T> {
    upstream: T,
    chain_id: u64,
}

impl<T> TraverseWallet<T> {
    /// The backend that the relay was made with.
    pub closed spec fn backend(&self) -> T {
        self.upstream
    }

    /// The chain that the relay was made for.
    pub closed spec fn chain(&self) -> u64 {
        self.chain_id
    }

    /// Create a new wallet module.
    pub fn new(upstream: T, chain_id: u64) -> (wallet: Self)
        ensures
            wallet.backend() == upstream,
            wallet.chain() == chain_id,
    {
        Self { upstream, chain_id }
    }

    /// The chain that the relay was made for.
    pub fn chain_id(&self) -> (chain_id: u64)
        ensures
            chain_id == self.chain(),
    {
        self.chain_id
    }

    /// The backend that the relay was made with.
    pub fn upstream(&self) -> (upstream: &T)
        ensures
            *upstream == self.backend(),
    {
        &self.upstream
    }

    /// Takes one request one step further.
    ///
    /// Where the event is the one that the request waits for, the request
    /// moves on and the decision is returned, both as `next` says. Any other
    /// event is not taken: the request stays as it is and there is no
    /// decision.
    pub fn step(&self, session: &mut Sponsorship, event: Event) -> (decision: Option<Decision>)
        ensures
            decision is Some <==> expects(old(session).stage, event),
            decision is Some ==> (*final(session), decision.unwrap()) == next(
                self.chain(),
                *old(session),
                event,
            ),
            decision is None ==> *final(session) == *old(session),
    {
        match event {
            Event::Arrived => {
                if session.stage != Stage::Received {
                    return None;
                }
                // validate the fields that need no chain state
                if let Err(error) = validate_tx_request(&session.request) {
                    return Some(session.turn_down(error));
                }
                // validate destination
                match classify_destination(&session.request) {
                    // a transaction that installs account code is let through
                    Destination::SetCode => Some(session.authorize()),
                    // a call must go to an account with a delegation in force
                    Destination::Call(address) => {
                        session.stage = Stage::AwaitingCode;
                        Some(Decision { action: Action::GetCode(address), tally: None })
                    },
                    // creation transactions are not sponsored
                    Destination::Illegal => Some(
                        session.turn_down(TraverseWalletError::IllegalDestination),
                    ),
                }
            },
            Event::Code(answer) => {
                if session.stage != Stage::AwaitingCode {
                    return None;
                }
                match answer {
                    Ok(code) => match check_delegation(code.as_slice()) {
                        Ok(()) => Some(session.authorize()),
                        Err(error) => Some(session.turn_down(error)),
                    },
                    Err(error) => Some(session.turn_down(error)),
                }
            },
            Event::PermitAcquired(signer) => {
                if session.stage != Stage::AwaitingPermit {
                    return None;
                }
                // from here on the request has the backend to itself
                session.request.chain_id = Some(self.chain_id);
                // the sender is set before the estimation, for contracts
                // that look at the origin of the transaction
                session.request.from = Some(signer);
                session.stage = Stage::AwaitingEstimate;
                Some(Decision { action: Action::Estimate(session.request), tally: None })
            },
            Event::Estimated(answer) => {
                if session.stage != Stage::AwaitingEstimate {
                    return None;
                }
                match answer {
                    Ok((estimate, fee_estimate)) => {
                        if let Err(error) = check_gas_estimate(estimate) {
                            return Some(session.turn_down(error));
                        }
                        // set gas limit
                        session.request.gas = Some(estimate);
                        // set gas price
                        session.request.max_fee_per_gas = Some(fee_estimate.max_fee_per_gas);
                        session.request.max_priority_fee_per_gas = Some(
                            fee_estimate.max_priority_fee_per_gas,
                        );
                        session.request.gas_price = None;
                        session.stage = Stage::AwaitingSubmission;
                        // all checks passed: the request counts as valid
                        Some(
                            Decision {
                                action: Action::SignAndSend(session.request),
                                tally: Some(Tally::Valid),
                            },
                        )
                    },
                    Err(error) => Some(session.turn_down(error)),
                }
            },
            Event::Submitted(outcome) => {
                if session.stage != Stage::AwaitingSubmission {
                    return None;
                }
                session.stage = Stage::Finished;
                Some(Decision { action: Action::Reply(outcome), tally: None })
            },
        }
    }
}

} // verus!
