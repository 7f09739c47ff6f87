//! Many requests at once: a model of one service instance, and what holds
//! of it however the requests interleave.
//!
//! The service serves each request as a task of its own. The tasks share
//! three things: the signing permit, the two request counters, and the
//! backend's nonce source, from which signing draws the next nonce and
//! which a submitted transaction moves on by one. The model holds these
//! beside the state of every request. One step of the model is one request
//! arriving, or one event delivered to one request, which then moves as the
//! coordinator's rule says. The only thing asked of the surroundings is
//! what a lock gives: the permit is granted only while it is free.

use vstd::prelude::*;
use crate::request::TransactionRequest;
use crate::wallet::{expects, next, Action, Decision, Event, Sponsorship, Stage, Tally};

verus! {

/// One service instance with the requests that it has taken in.
pub struct Service {
    /// The chain that the service signs for.
    pub chain_id: u64,
    /// Every request taken in so far, finished or not, in order of arrival.
    pub sessions: Seq<Sponsorship>,
    /// The request that holds the signing permit, by its place in
    /// `sessions`, if the permit is held.
    pub permit: Option<int>,
    /// The counter of valid requests.
    pub valid: nat,
    /// The counter of invalid requests.
    pub invalid: nat,
    /// Where the backend's nonce source stood when the service started.
    pub first_nonce: nat,
    /// Where the backend's nonce source stands: the nonce that signing
    /// draws next.
    pub next_nonce: nat,
    /// The nonce drawn for each request whose transaction went to signing.
    pub drawn: Map<int, nat>,
    /// The nonces of the transactions that were submitted, in order.
    pub sent: Seq<nat>,
    /// How many transactions the backend failed to sign or submit.
    pub failed: nat,
}

/// A service that has just started.
pub open spec fn starts(service: Service) -> bool {
    &&& service.sessions.len() == 0
    &&& service.permit is None
    &&& service.valid == 0
    &&& service.invalid == 0
    &&& service.next_nonce == service.first_nonce
    &&& service.sent.len() == 0
    &&& service.failed == 0
}

/// A request arrives: it joins the others, and nothing else changes.
pub open spec fn arrives(before: Service, after: Service, request: TransactionRequest) -> bool {
    after == (Service {
        sessions: before.sessions.push(Sponsorship { stage: Stage::Received, request }),
        ..before
    })
}

/// The amount by which a decision moves the counter for the given tally.
pub open spec fn counts(decision: Decision, tally: Tally) -> nat {
    if decision.tally == Some(tally) {
        1
    } else {
        0
    }
}

/// An event is delivered to the request at place `i`, which waits for it.
///
/// The request moves as the coordinator's rule says. The permit is granted
/// only while it is free, and comes free again when its holder is replied
/// to. A decision's tally moves a counter. A transaction that goes to
/// signing draws the nonce at which the source stands, and a submission
/// that succeeds moves the source to the nonce after the one submitted. A
/// submission that fails leaves the source where it stood.
pub open spec fn delivers(before: Service, after: Service, i: int, event: Event) -> bool {
    let (session, decision) = next(before.chain_id, before.sessions[i], event);
    &&& 0 <= i < before.sessions.len()
    &&& expects(before.sessions[i].stage, event)
    &&& event is PermitAcquired ==> before.permit is None
    &&& after == (Service {
        sessions: before.sessions.update(i, session),
        permit: if event is PermitAcquired {
            Some(i)
        } else if decision.action is Reply && before.sessions[i].stage.holds_permit() {
            None
        } else {
            before.permit
        },
        valid: before.valid + counts(decision, Tally::Valid),
        invalid: before.invalid + counts(decision, Tally::Invalid),
        drawn: if decision.action is SignAndSend {
            before.drawn.insert(i, before.next_nonce)
        } else {
            before.drawn
        },
        next_nonce: if event is Submitted && event->Submitted_0 is Ok {
            before.drawn[i] + 1
        } else {
            before.next_nonce
        },
        sent: if event is Submitted && event->Submitted_0 is Ok {
            before.sent.push(before.drawn[i])
        } else {
            before.sent
        },
        failed: if event is Submitted && event->Submitted_0 is Err {
            before.failed + 1
        } else {
            before.failed
        },
        ..before
    })
}

/// One step of the service: a request arrives, or an event is delivered.
pub open spec fn moves(before: Service, after: Service) -> bool {
    ||| exists|request: TransactionRequest| arrives(before, after, request)
    ||| exists|i: int, event: Event| delivers(before, after, i, event)
}

/// A history of the service: it starts, and each state follows from the one
/// before by one step.
pub open spec fn is_history(history: Seq<Service>) -> bool {
    &&& history.len() > 0
    &&& starts(history[0])
    &&& forall|k: int| 0 <= k < history.len() - 1 ==> moves(history[k], #[trigger] history[k + 1])
}

/// Whether a request at this stage has been counted, as valid or invalid.
pub open spec fn is_counted(stage: Stage) -> bool {
    stage == Stage::AwaitingSubmission || stage == Stage::Finished
}

/// How many of the requests have been counted.
pub open spec fn counted(sessions: Seq<Sponsorship>) -> nat
    decreases sessions.len(),
{
    if sessions.len() == 0 {
        0
    } else {
        counted(sessions.drop_last()) + if is_counted(sessions.last().stage) {
            1nat
        } else {
            0nat
        }
    }
}

/// What every state of every history satisfies.
///
/// - A request holds the permit exactly when the service has it down as
///   the holder, and the holder is one of the requests taken in.
/// - The counters together are the number of requests counted.
/// - The nonces submitted so far are the first nonce and those after it, in
///   order, and the source stands right behind them.
/// - A request whose transaction is with the signer has drawn the nonce at
///   which the source stands.
/// - Every request counted as valid has had its transaction submitted, or
///   failed by the backend, or has it with the signer now.
pub open spec fn consistent(service: Service) -> bool {
    &&& forall|i: int|
        0 <= i < service.sessions.len() ==> (#[trigger] service.sessions[i].stage.holds_permit()
            <==> service.permit == Some(i))
    &&& service.permit is Some ==> 0 <= service.permit.unwrap() < service.sessions.len()
    &&& service.valid + service.invalid == counted(service.sessions)
    &&& service.next_nonce == service.first_nonce + service.sent.len()
    &&& forall|k: int|
        0 <= k < service.sent.len() ==> #[trigger] service.sent[k] == service.first_nonce + k
    &&& forall|i: int|
        0 <= i < service.sessions.len() && (#[trigger] service.sessions[i]).stage
            == Stage::AwaitingSubmission ==> service.drawn.contains_key(i) && service.drawn[i]
            == service.next_nonce
    &&& service.valid == service.sent.len() + service.failed + signing(service)
}

/// How many transactions are with the signer: one if the holder of the
/// permit waits for its submission, else none.
pub open spec fn signing(service: Service) -> nat {
    if service.permit is Some && service.sessions[service.permit.unwrap()].stage
        == Stage::AwaitingSubmission {
        1
    } else {
        0
    }
}

proof fn lemma_counted_push(sessions: Seq<Sponsorship>, session: Sponsorship)
    ensures
        counted(sessions.push(session)) == counted(sessions) + if is_counted(session.stage) {
            1nat
        } else {
            0nat
        },
{
    assert(sessions.push(session).drop_last() =~= sessions);
}

proof fn lemma_counted_update(sessions: Seq<Sponsorship>, i: int, session: Sponsorship)
    requires
        0 <= i < sessions.len(),
    ensures
        counted(sessions.update(i, session)) + (if is_counted(sessions[i].stage) {
            1nat
        } else {
            0nat
        }) == counted(sessions) + if is_counted(session.stage) {
            1nat
        } else {
            0nat
        },
    decreases sessions.len(),
{
    let updated = sessions.update(i, session);
    if i == sessions.len() - 1 {
        assert(updated.drop_last() =~= sessions.drop_last());
    } else {
        lemma_counted_update(sessions.drop_last(), i, session);
        assert(updated.drop_last() =~= sessions.drop_last().update(i, session));
    }
}

proof fn lemma_counted_all(sessions: Seq<Sponsorship>)
    requires
        forall|i: int| 0 <= i < sessions.len() ==> is_counted(#[trigger] sessions[i].stage),
    ensures
        counted(sessions) == sessions.len(),
    decreases sessions.len(),
{
    if sessions.len() > 0 {
        lemma_counted_all(sessions.drop_last());
    }
}

/// A service that has just started is consistent.
pub proof fn lemma_start_is_consistent(service: Service)
    requires
        starts(service),
    ensures
        consistent(service),
{
}

/// One step keeps a consistent service consistent, and leaves the first
/// nonce as it was.
pub proof fn lemma_step_keeps_consistent(before: Service, after: Service)
    requires
        consistent(before),
        moves(before, after),
    ensures
        consistent(after),
        after.first_nonce == before.first_nonce,
{
    if exists|request: TransactionRequest| arrives(before, after, request) {
        let request = choose|request: TransactionRequest| arrives(before, after, request);
        let session = Sponsorship { stage: Stage::Received, request };
        lemma_counted_push(before.sessions, session);
        assert forall|i: int| 0 <= i < after.sessions.len() implies (
        #[trigger] after.sessions[i].stage.holds_permit() <==> after.permit == Some(i)) by {
            if i < before.sessions.len() {
                assert(after.sessions[i] == before.sessions[i]);
            }
        }
        assert forall|i: int|
            0 <= i < after.sessions.len() && (#[trigger] after.sessions[i]).stage
                == Stage::AwaitingSubmission implies after.drawn.contains_key(i)
            && after.drawn[i] == after.next_nonce by {
            assert(after.sessions[i] == before.sessions[i]);
        }
    } else {
        let (i, event) = choose|i: int, event: Event| delivers(before, after, i, event);
        let (session, decision) = next(before.chain_id, before.sessions[i], event);
        lemma_counted_update(before.sessions, i, session);
        assert(before.sessions[i].stage.holds_permit() <==> before.permit == Some(i));
        assert forall|j: int| 0 <= j < after.sessions.len() implies (
        #[trigger] after.sessions[j].stage.holds_permit() <==> after.permit == Some(j)) by {
            if j != i {
                assert(after.sessions[j] == before.sessions[j]);
                assert(before.sessions[j].stage.holds_permit() <==> before.permit == Some(j));
            }
        }
        assert forall|j: int|
            0 <= j < after.sessions.len() && (#[trigger] after.sessions[j]).stage
                == Stage::AwaitingSubmission implies after.drawn.contains_key(j)
            && after.drawn[j] == after.next_nonce by {
            if j != i {
                assert(after.sessions[j] == before.sessions[j]);
                assert(before.sessions[j].stage.holds_permit() <==> before.permit == Some(j));
                assert(before.sessions[i].stage.holds_permit() <==> before.permit == Some(i));
            }
        }
        assert forall|k: int| 0 <= k < after.sent.len() implies #[trigger] after.sent[k]
            == after.first_nonce + k by {
            if k < before.sent.len() {
                assert(after.sent[k] == before.sent[k]);
            } else {
                assert(before.sessions[i].stage == Stage::AwaitingSubmission);
            }
        }
    }
}

/// Every state of a history is consistent, and has the first nonce that the
/// history started with.
pub proof fn lemma_history_is_consistent(history: Seq<Service>, k: int)
    requires
        is_history(history),
        0 <= k < history.len(),
    ensures
        consistent(history[k]),
        history[k].first_nonce == history[0].first_nonce,
    decreases k,
{
    if k == 0 {
        lemma_start_is_consistent(history[0]);
    } else {
        lemma_history_is_consistent(history, k - 1);
        assert(moves(history[k - 1], history[k - 1 + 1]));
        lemma_step_keeps_consistent(history[k - 1], history[k]);
    }
}

/// The backend is asked to estimate, or to sign and send, only for a
/// request that holds the permit, and a request that is replied to holds it
/// no longer. A request that holds the permit keeps it until it is replied
/// to, and never waits for the permit again: the lock is not entered twice.
pub proof fn law_backend_work_holds_permit(chain_id: u64, session: Sponsorship, event: Event)
    requires
        expects(session.stage, event),
    ensures
        ({
            let (after, decision) = next(chain_id, session, event);
            &&& decision.action is Estimate || decision.action is SignAndSend
                ==> after.stage.holds_permit()
            &&& decision.action is Reply <==> after.stage == Stage::Finished
            &&& decision.action is Reply ==> !after.stage.holds_permit()
            &&& session.stage.holds_permit() && !(decision.action is Reply)
                ==> after.stage.holds_permit()
            &&& after.stage.holds_permit() && !session.stage.holds_permit()
                ==> event is PermitAcquired
            &&& decision.action is AcquirePermit ==> !session.stage.holds_permit()
                && !after.stage.holds_permit()
        }),
{
}

/// At no time do two requests hold the permit: however the requests
/// interleave, at most one of them is between the grant of the permit and
/// its reply, which is where estimation, signing and submission happen.
pub proof fn law_permit_is_exclusive(history: Seq<Service>, k: int, i: int, j: int)
    requires
        is_history(history),
        0 <= k < history.len(),
        0 <= i < history[k].sessions.len(),
        0 <= j < history[k].sessions.len(),
        i != j,
    ensures
        !(history[k].sessions[i].stage.holds_permit() && history[k].sessions[j].stage.holds_permit(
        )),
{
    lemma_history_is_consistent(history, k);
    let service = history[k];
    assert(service.sessions[i].stage.holds_permit() <==> service.permit == Some(i));
    assert(service.sessions[j].stage.holds_permit() <==> service.permit == Some(j));
}

/// A request that was replied to holds the permit no longer, however it
/// ended, and once every request was replied to the permit is free.
pub proof fn law_permit_is_released(history: Seq<Service>, k: int)
    requires
        is_history(history),
        0 <= k < history.len(),
    ensures
        forall|i: int|
            0 <= i < history[k].sessions.len() && (#[trigger] history[k].sessions[i]).stage
                == Stage::Finished ==> history[k].permit != Some(i),
        all_replied(history[k]) ==> history[k].permit is None,
{
    lemma_history_is_consistent(history, k);
    let service = history[k];
    assert forall|i: int|
        0 <= i < service.sessions.len() && (#[trigger] service.sessions[i]).stage
            == Stage::Finished implies service.permit != Some(i) by {
        assert(service.sessions[i].stage.holds_permit() <==> service.permit == Some(i));
    }
    if all_replied(service) && service.permit is Some {
        let holder = service.permit.unwrap();
        assert(service.sessions[holder].stage.holds_permit());
    }
}

/// The transactions that were submitted carry the nonces from the first
/// nonce onward, one after the other: none twice and none left out. The
/// nonce source stands right behind the last of them.
pub proof fn law_nonces_are_sequential(history: Seq<Service>, k: int)
    requires
        is_history(history),
        0 <= k < history.len(),
    ensures
        forall|m: int|
            0 <= m < history[k].sent.len() ==> #[trigger] history[k].sent[m]
                == history[0].first_nonce + m,
        forall|m: int, n: int|
            0 <= m < n < history[k].sent.len() ==> history[k].sent[m] != history[k].sent[n],
        history[k].next_nonce == history[0].first_nonce + history[k].sent.len(),
{
    lemma_history_is_consistent(history, k);
}

/// Whether every request taken in has been replied to.
pub open spec fn all_replied(service: Service) -> bool {
    forall|i: int|
        0 <= i < service.sessions.len() ==> (#[trigger] service.sessions[i]).stage
            == Stage::Finished
}

/// The two counters together count the requests that passed every check or
/// were turned down. Once every request taken in has been replied to, they
/// add up to the number of requests, and every request counted as valid has
/// had its transaction submitted or failed by the backend.
///
/// So where all of N requests pass every check and the backend fails none,
/// N transactions were submitted, and by `law_nonces_are_sequential` they
/// carry N nonces in sequence.
pub proof fn law_counters_add_up(history: Seq<Service>, k: int)
    requires
        is_history(history),
        0 <= k < history.len(),
    ensures
        history[k].valid + history[k].invalid == counted(history[k].sessions),
        all_replied(history[k]) ==> history[k].valid + history[k].invalid
            == history[k].sessions.len(),
        all_replied(history[k]) ==> history[k].valid == history[k].sent.len()
            + history[k].failed,
        all_replied(history[k]) && history[k].invalid == 0 && history[k].failed == 0
            ==> history[k].sent.len() == history[k].sessions.len(),
{
    lemma_history_is_consistent(history, k);
    if history[k].permit is Some {
        let holder = history[k].permit.unwrap();
        assert(history[k].sessions[holder].stage.holds_permit());
    }
    if forall|i: int|
        0 <= i < history[k].sessions.len() ==> (#[trigger] history[k].sessions[i]).stage
            == Stage::Finished {
        assert forall|i: int| 0 <= i < history[k].sessions.len() implies is_counted(
            #[trigger] history[k].sessions[i].stage,
        ) by {
            assert(history[k].sessions[i].stage == Stage::Finished);
        }
        lemma_counted_all(history[k].sessions);
    }
}

} // verus!
