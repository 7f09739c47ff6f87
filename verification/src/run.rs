//! A request served from arrival to reply, and what holds of every such
//! run.
//!
//! The coordinator decides one step at a time. Here its steps are chained:
//! given the answers that the backend has for a request, `run` is the
//! sequence of decisions that the coordinator takes until it replies. Each
//! law below is stated of `run`, for every request and every backend
//! answer, and is proved from the coordinator's rule.

use vstd::prelude::*;
use crate::delegation::{
    designator_prefix,
    destination_of,
    is_designator,
    is_live_delegation,
    Destination,
};
use crate::error::TraverseWalletError;
use crate::primitives::{zero_address, Address, TxHash, TxKind};
use crate::request::{transfers_value, validation_error, TransactionRequest};
use crate::upstream::{Eip1559Estimation, GAS_ESTIMATE_CEILING};
use crate::wallet::{
    drafted,
    next,
    priced,
    Action,
    Decision,
    Event,
    Sponsorship,
    Stage,
    Tally,
};

verus! {

/// What the backend answers to the operations of one request.
pub struct Answers {
    /// The bytecode lookup's answer.
    pub code: Result<Vec<u8>, TraverseWalletError>,
    /// The backend's signer address.
    pub signer: Address,
    /// The estimation's answer.
    pub estimate: Result<(u64, Eip1559Estimation), TraverseWalletError>,
    /// The answer of signing and submission.
    pub submission: Result<TxHash, TraverseWalletError>,
}

/// The event that the backend's answer to an action makes. A reply ends the
/// run and has no answer.
pub open spec fn answer_to(action: Action, answers: Answers) -> Option<Event> {
    match action {
        Action::GetCode(_) => Some(Event::Code(answers.code)),
        Action::AcquirePermit => Some(Event::PermitAcquired(answers.signer)),
        Action::Estimate(_) => Some(Event::Estimated(answers.estimate)),
        Action::SignAndSend(_) => Some(Event::Submitted(answers.submission)),
        Action::Reply(_) => None,
    }
}

/// The decisions taken from the given state and event on, each answered by
/// the backend, for at most `steps` further steps.
pub open spec fn run_from(
    chain_id: u64,
    session: Sponsorship,
    event: Event,
    answers: Answers,
    steps: nat,
) -> Seq<Decision>
    decreases steps,
{
    let (after, decision) = next(chain_id, session, event);
    let following = answer_to(decision.action, answers);
    if steps > 0 && following is Some {
        seq![decision] + run_from(chain_id, after, following.unwrap(), answers, (steps - 1) as nat)
    } else {
        seq![decision]
    }
}

/// The decisions taken for a request from its arrival on. No request takes
/// more than five.
pub open spec fn run(chain_id: u64, request: TransactionRequest, answers: Answers) -> Seq<
    Decision,
> {
    run_from(chain_id, Sponsorship { stage: Stage::Received, request }, Event::Arrived, answers, 4)
}

/// The decision that turns a request down with the given error.
pub open spec fn rejection(error: TraverseWalletError) -> Decision {
    Decision { action: Action::Reply(Err(error)), tally: Some(Tally::Invalid) }
}

/// Whether the request passes the checks that come before the permit: its
/// own fields are in order and its destination is authorized, by an
/// authorization list or by the bytecode that the backend finds there.
pub open spec fn passes_authorization(request: TransactionRequest, answers: Answers) -> bool {
    validation_error(request) is None && match destination_of(request) {
        Destination::SetCode => true,
        Destination::Call(_) => answers.code is Ok && is_live_delegation(answers.code.unwrap()@),
        Destination::Illegal => false,
    }
}

/// How many of the decisions increment a counter.
pub open spec fn tallies(decisions: Seq<Decision>) -> nat
    decreases decisions.len(),
{
    if decisions.len() == 0 {
        0
    } else {
        tallies(decisions.drop_last()) + if decisions.last().tally is Some {
            1nat
        } else {
            0nat
        }
    }
}

/// Every run ends with a reply, and with nothing but the reply: the
/// decisions before it all ask the service for something.
pub proof fn law_run_ends_with_reply(chain_id: u64, request: TransactionRequest, answers: Answers)
    ensures
        1 <= run(chain_id, request, answers).len() <= 5,
        run(chain_id, request, answers).last().action is Reply,
        forall|i: int|
            0 <= i < run(chain_id, request, answers).len() - 1 ==> !(run(
                chain_id,
                request,
                answers,
            )[i].action is Reply),
{
    reveal_with_fuel(run_from, 5);
}

/// The permit is waited for at most once in a run, and only before any
/// estimation or signing.
pub proof fn law_permit_is_taken_once(
    chain_id: u64,
    request: TransactionRequest,
    answers: Answers,
    i: int,
    j: int,
)
    requires
        0 <= i < run(chain_id, request, answers).len(),
        0 <= j < run(chain_id, request, answers).len(),
        run(chain_id, request, answers)[i].action is AcquirePermit,
    ensures
        run(chain_id, request, answers)[j].action is AcquirePermit ==> i == j,
        run(chain_id, request, answers)[j].action is Estimate || run(
            chain_id,
            request,
            answers,
        )[j].action is SignAndSend ==> i < j,
{
    reveal_with_fuel(run_from, 5);
}

/// A request that would transfer value is turned down with `ValueNotZero`
/// at once: the reply is the only decision, so the backend is never asked.
pub proof fn law_value_is_refused(chain_id: u64, request: TransactionRequest, answers: Answers)
    requires
        transfers_value(request),
    ensures
        run(chain_id, request, answers) == seq![rejection(TraverseWalletError::ValueNotZero)],
{
    reveal_with_fuel(run_from, 2);
}

/// A request that names a sender or a nonce is turned down at once,
/// whatever its other fields hold, and the backend is never asked.
///
/// The three field checks come in a fixed order and the first that fails
/// gives the error. So a sender gives `FromSet` unless the request would
/// also transfer value, and a nonce gives `NonceSet` unless the request
/// would also transfer value or names a sender.
pub proof fn law_sender_and_nonce_are_refused(
    chain_id: u64,
    request: TransactionRequest,
    answers: Answers,
)
    requires
        request.from is Some || request.nonce is Some,
    ensures
        validation_error(request) is Some,
        run(chain_id, request, answers) == seq![rejection(validation_error(request).unwrap())],
        request.from is Some && !transfers_value(request) ==> validation_error(request) == Some(
            TraverseWalletError::FromSet,
        ),
        request.nonce is Some && request.from is None && !transfers_value(request)
            ==> validation_error(request) == Some(TraverseWalletError::NonceSet),
{
    reveal_with_fuel(run_from, 2);
}

/// A call to an account whose bytecode is the designator prefix followed by
/// the zero address is turned down with `IllegalDestination` once the
/// bytecode is there.
pub proof fn law_cleared_delegation_is_refused(
    chain_id: u64,
    request: TransactionRequest,
    answers: Answers,
    address: Address,
)
    requires
        validation_error(request) is None,
        !request.has_authorization_list,
        request.to == Some(TxKind::Call(address)),
        answers.code is Ok,
        answers.code.unwrap()@ == designator_prefix() + zero_address(),
    ensures
        run(chain_id, request, answers) == seq![
            Decision { action: Action::GetCode(address), tally: None },
            rejection(TraverseWalletError::IllegalDestination),
        ],
{
    reveal_with_fuel(run_from, 3);
    let code = answers.code.unwrap()@;
    assert(code.subrange(3, 23) =~= zero_address());
}

/// A call to an account whose bytecode is the designator prefix followed by
/// a twenty-byte address other than zero passes authorization: after the
/// lookup the request waits for the permit and then goes to estimation.
pub proof fn law_live_delegation_is_authorized(
    chain_id: u64,
    request: TransactionRequest,
    answers: Answers,
    address: Address,
    delegate: Seq<u8>,
)
    requires
        validation_error(request) is None,
        !request.has_authorization_list,
        request.to == Some(TxKind::Call(address)),
        answers.code is Ok,
        delegate.len() == 20,
        delegate != zero_address(),
        answers.code.unwrap()@ == designator_prefix() + delegate,
    ensures
        passes_authorization(request, answers),
        run(chain_id, request, answers).len() >= 3,
        run(chain_id, request, answers)[0] == (Decision {
            action: Action::GetCode(address),
            tally: None,
        }),
        run(chain_id, request, answers)[1] == (Decision {
            action: Action::AcquirePermit,
            tally: None,
        }),
        run(chain_id, request, answers)[2] == (Decision {
            action: Action::Estimate(drafted(request, chain_id, answers.signer)),
            tally: None,
        }),
{
    reveal_with_fuel(run_from, 5);
    let code = answers.code.unwrap()@;
    assert(code.subrange(3, 23) =~= delegate);
}

/// A call to an account whose bytecode is no delegation designator, the
/// empty bytecode included, is turned down with `IllegalDestination` once
/// the bytecode is there.
pub proof fn law_plain_code_is_refused(
    chain_id: u64,
    request: TransactionRequest,
    answers: Answers,
    address: Address,
)
    requires
        validation_error(request) is None,
        !request.has_authorization_list,
        request.to == Some(TxKind::Call(address)),
        answers.code is Ok,
        !is_designator(answers.code.unwrap()@),
    ensures
        run(chain_id, request, answers) == seq![
            Decision { action: Action::GetCode(address), tally: None },
            rejection(TraverseWalletError::IllegalDestination),
        ],
{
    reveal_with_fuel(run_from, 3);
}

/// A request without an authorization list that creates a contract, or
/// names no destination, is turned down with `IllegalDestination` at once:
/// no bytecode is looked at.
pub proof fn law_creation_is_refused(
    chain_id: u64,
    request: TransactionRequest,
    answers: Answers,
)
    requires
        validation_error(request) is None,
        !request.has_authorization_list,
        request.to is None || request.to == Some(TxKind::Create),
    ensures
        run(chain_id, request, answers) == seq![
            rejection(TraverseWalletError::IllegalDestination),
        ],
{
    reveal_with_fuel(run_from, 2);
}

/// A request with an authorization list is authorized whatever its
/// destination and whatever bytecode is there: it waits for the permit
/// first and no bytecode is ever looked up.
pub proof fn law_authorization_list_is_authorized(
    chain_id: u64,
    request: TransactionRequest,
    answers: Answers,
)
    requires
        validation_error(request) is None,
        request.has_authorization_list,
    ensures
        passes_authorization(request, answers),
        run(chain_id, request, answers).len() >= 2,
        run(chain_id, request, answers)[0] == (Decision {
            action: Action::AcquirePermit,
            tally: None,
        }),
        run(chain_id, request, answers)[1] == (Decision {
            action: Action::Estimate(drafted(request, chain_id, answers.signer)),
            tally: None,
        }),
        forall|i: int|
            0 <= i < run(chain_id, request, answers).len() ==> !(run(
                chain_id,
                request,
                answers,
            )[i].action is GetCode),
{
    reveal_with_fuel(run_from, 5);
}

/// Where the estimated gas reaches the ceiling, the reply is
/// `GasEstimateTooHigh` with that estimate, and nothing is signed or sent.
pub proof fn law_high_estimate_is_refused(
    chain_id: u64,
    request: TransactionRequest,
    answers: Answers,
    gas: u64,
    fees: Eip1559Estimation,
)
    requires
        passes_authorization(request, answers),
        answers.estimate == Ok::<(u64, Eip1559Estimation), TraverseWalletError>((gas, fees)),
        gas >= GAS_ESTIMATE_CEILING,
    ensures
        run(chain_id, request, answers).last() == rejection(
            TraverseWalletError::GasEstimateTooHigh { estimate: gas },
        ),
        forall|i: int|
            0 <= i < run(chain_id, request, answers).len() ==> !(run(
                chain_id,
                request,
                answers,
            )[i].action is SignAndSend),
{
    reveal_with_fuel(run_from, 5);
}

/// Where the estimated gas is below the ceiling, the transaction that goes
/// to signing carries exactly the estimated gas and fees and no flat gas
/// price, is sent by the signer on the service's chain, and is otherwise the
/// request as it came. The request counts as valid, and the reply is
/// whatever signing and submission answer.
pub proof fn law_estimate_prices_the_transaction(
    chain_id: u64,
    request: TransactionRequest,
    answers: Answers,
    gas: u64,
    fees: Eip1559Estimation,
)
    requires
        passes_authorization(request, answers),
        answers.estimate == Ok::<(u64, Eip1559Estimation), TraverseWalletError>((gas, fees)),
        gas < GAS_ESTIMATE_CEILING,
    ensures
        ({
            let decisions = run(chain_id, request, answers);
            let transaction = priced(drafted(request, chain_id, answers.signer), gas, fees);
            &&& decisions.len() >= 2
            &&& decisions[decisions.len() - 2] == (Decision {
                action: Action::SignAndSend(transaction),
                tally: Some(Tally::Valid),
            })
            &&& decisions.last() == (Decision {
                action: Action::Reply(answers.submission),
                tally: None,
            })
            &&& transaction.gas == Some(gas)
            &&& transaction.max_fee_per_gas == Some(fees.max_fee_per_gas)
            &&& transaction.max_priority_fee_per_gas == Some(fees.max_priority_fee_per_gas)
            &&& transaction.gas_price is None
            &&& transaction.from == Some(answers.signer)
            &&& transaction.chain_id == Some(chain_id)
            &&& transaction.nonce is None
            &&& transaction.value == request.value
            &&& transaction.to == request.to
        }),
{
    reveal_with_fuel(run_from, 5);
}

/// A transaction is signed and sent only for a request that passed
/// authorization and whose estimate came back below the ceiling.
pub proof fn law_nothing_else_is_signed(
    chain_id: u64,
    request: TransactionRequest,
    answers: Answers,
    i: int,
)
    requires
        0 <= i < run(chain_id, request, answers).len(),
        run(chain_id, request, answers)[i].action is SignAndSend,
    ensures
        passes_authorization(request, answers),
        answers.estimate is Ok,
        answers.estimate.unwrap().0 < GAS_ESTIMATE_CEILING,
{
    reveal_with_fuel(run_from, 5);
}

/// Every request is counted exactly once, as valid or as invalid, whatever
/// its outcome. It is counted as valid exactly when a transaction goes to
/// signing.
pub proof fn law_counted_once(chain_id: u64, request: TransactionRequest, answers: Answers)
    ensures
        tallies(run(chain_id, request, answers)) == 1,
        forall|i: int|
            0 <= i < run(chain_id, request, answers).len() ==> (run(
                chain_id,
                request,
                answers,
            )[i].tally == Some(Tally::Valid) <==> run(
                chain_id,
                request,
                answers,
            )[i].action is SignAndSend),
{
    reveal_with_fuel(run_from, 5);
    reveal_with_fuel(tallies, 6);
    let decisions = run(chain_id, request, answers);
    if decisions.len() == 1 {
    } else if decisions.len() == 2 {
        assert(decisions.drop_last() =~= seq![decisions[0]]);
    } else if decisions.len() == 3 {
        assert(decisions.drop_last() =~= seq![decisions[0], decisions[1]]);
        assert(decisions.drop_last().drop_last() =~= seq![decisions[0]]);
    } else if decisions.len() == 4 {
        assert(decisions.drop_last() =~= seq![decisions[0], decisions[1], decisions[2]]);
        assert(decisions.drop_last().drop_last() =~= seq![decisions[0], decisions[1]]);
        assert(decisions.drop_last().drop_last().drop_last() =~= seq![decisions[0]]);
    } else {
        assert(decisions.drop_last() =~= seq![
            decisions[0],
            decisions[1],
            decisions[2],
            decisions[3],
        ]);
        assert(decisions.drop_last().drop_last() =~= seq![
            decisions[0],
            decisions[1],
            decisions[2],
        ]);
        assert(decisions.drop_last().drop_last().drop_last() =~= seq![decisions[0], decisions[1]]);
        assert(decisions.drop_last().drop_last().drop_last().drop_last() =~= seq![decisions[0]]);
    }
}

} // verus!
