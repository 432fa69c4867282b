//! What holds of every submission, proved over the machine's transition.

use vstd::prelude::*;
use crate::amount::Amount;
use crate::fee::inflated;
use crate::manager::{fee_query, FeeStyle};
use crate::policy::{backoff, RetryPolicy};
use crate::request::{Address, RequestView, TransactionRequest};
use crate::submission::{
    corrected_nonce, next, start, Action, Event, Phase, SubmissionError, SubmissionView,
};
use crate::text::already_known;

verus! {

/// The state that a run of events ends in, and the actions that the events
/// brought forth, one each.
pub open spec fn run(s: SubmissionView, events: Seq<Event>) -> (SubmissionView, Seq<Action>)
    decreases events.len(),
{
    if events.len() == 0 {
        (s, Seq::empty())
    } else {
        let (before, actions) = run(s, events.drop_last());
        let (after, action) = next(before, events.last());
        (after, actions.push(action))
    }
}

/// How many of the actions submit the transaction.
pub open spec fn sends(actions: Seq<Action>) -> nat
    decreases actions.len(),
{
    if actions.len() == 0 {
        0
    } else {
        sends(actions.drop_last()) + if actions.last() is Send {
            1nat
        } else {
            0nat
        }
    }
}

/// What every state of a run from a start has: while the submission is not
/// over, the index of its attempt lies below the bound.
pub open spec fn within_bound(s: SubmissionView) -> bool {
    s.finished() || s.attempts < s.policy.max_retries
}

/// How many times a state may still submit.
pub open spec fn sends_left(s: SubmissionView) -> int {
    match s.phase {
        Phase::Confirmed | Phase::Failed => 0,
        Phase::Submitting | Phase::AwaitingConfirmation => s.policy.max_retries - s.attempts - 1,
        _ => s.policy.max_retries - s.attempts,
    }
}

/// A run of one more event is the run before it and one transition.
pub proof fn lemma_run_push(s: SubmissionView, events: Seq<Event>, event: Event)
    ensures
        run(s, events.push(event)) == ({
            let (before, actions) = run(s, events);
            let (after, action) = next(before, event);
            (after, actions.push(action))
        }),
{
    assert(events.push(event).drop_last() =~= events);
}

/// One more action adds one to the count where it submits.
pub proof fn lemma_sends_push(actions: Seq<Action>, action: Action)
    ensures
        sends(actions.push(action)) == sends(actions) + if action is Send {
            1nat
        } else {
            0nat
        },
{
    assert(actions.push(action).drop_last() =~= actions);
}

/// One transition keeps the attempt index within the bound, keeps the
/// policy, and pays for a submission out of what is left.
pub proof fn lemma_step_within_bound(s: SubmissionView, event: Event)
    requires
        within_bound(s),
    ensures
        within_bound(next(s, event).0),
        next(s, event).0.policy == s.policy,
        sends_left(next(s, event).0) + (if next(s, event).1 is Send {
            1int
        } else {
            0int
        }) <= sends_left(s),
        sends_left(s) >= 0,
{
}

/// The retry bound. Whatever the network answers, and in whatever order,
/// a submission submits its transaction at most as often as its policy
/// allows.
pub proof fn law_never_more_sends_than_attempts(
    address: Address,
    policy: RetryPolicy,
    num_confirmations: usize,
    request: RequestView,
    events: Seq<Event>,
)
    ensures
        sends(run(start(address, policy, num_confirmations, request).0, events).1)
            <= policy.max_retries,
{
    let s = start(address, policy, num_confirmations, request).0;
    lemma_run_bounded(s, events);
}

/// From a state within the bound, a run submits no more often than the
/// state has submissions left.
pub proof fn lemma_run_bounded(s: SubmissionView, events: Seq<Event>)
    requires
        within_bound(s),
    ensures
        within_bound(run(s, events).0),
        run(s, events).0.policy == s.policy,
        sends(run(s, events).1) + sends_left(run(s, events).0) <= sends_left(s),
        sends_left(run(s, events).0) >= 0,
    decreases events.len(),
{
    if events.len() == 0 {
        lemma_step_within_bound(s, Event::Sent);
    } else {
        lemma_run_bounded(s, events.drop_last());
        let (before, actions) = run(s, events.drop_last());
        lemma_step_within_bound(before, events.last());
        lemma_sends_push(actions, next(before, events.last()).1);
        lemma_step_within_bound(next(before, events.last()).0, Event::Sent);
    }
}

/// The first attempt succeeds. Where the policy allows an attempt and the
/// network estimates, accepts and confirms, the submission asks for the
/// estimate of the draft as it stands, submits it once with the inflated
/// fee, waits for the confirmations and ends in success, still in its first
/// attempt.
pub proof fn law_accepted_at_once(
    address: Address,
    policy: RetryPolicy,
    num_confirmations: usize,
    request: RequestView,
    estimate: Amount,
)
    requires
        policy.max_retries >= 1,
    ensures
        ({
            let (s0, first) = start(address, policy, num_confirmations, request);
            let (s1, second) = next(s0, Event::FeeEstimated(estimate));
            let (s2, third) = next(s1, Event::Sent);
            let (s3, fourth) = next(s2, Event::Confirmed);
            &&& first == Action::EstimateFee
            &&& s0.request == request
            &&& second == Action::Send
            &&& s1.request == (RequestView { gas: Some(inflated(estimate@)), ..request })
            &&& third == Action::AwaitConfirmations(num_confirmations)
            &&& fourth == Action::Finish(Ok(()))
            &&& s3.phase == Phase::Confirmed
            &&& s3.attempts == 0
            &&& sends(seq![first, second, third, fourth]) == 1
        }),
{
    let (s0, first) = start(address, policy, num_confirmations, request);
    let (s1, second) = next(s0, Event::FeeEstimated(estimate));
    let (s2, third) = next(s1, Event::Sent);
    let (s3, fourth) = next(s2, Event::Confirmed);
    let a0 = Seq::<Action>::empty();
    lemma_sends_push(a0, first);
    lemma_sends_push(a0.push(first), second);
    lemma_sends_push(a0.push(first).push(second), third);
    lemma_sends_push(a0.push(first).push(second).push(third), fourth);
    assert(seq![first, second, third, fourth] =~= a0.push(first).push(second).push(third).push(
        fourth,
    ));
}

/// Nonce correction. Where a submission with an attempt left is rejected as
/// already known, it rests, then asks the chain for the identity's
/// transaction count, and estimates the next attempt with the nonce
/// `chain_count + attempt index - 2`. After a first attempt that is the
/// count less one. The count must be large enough for that nonce not to lie
/// below zero, and small enough for it to fit in 64 bits.
pub proof fn law_duplicate_corrects_nonce(s: SubmissionView, message: String, chain_count: u64)
    requires
        s.phase == Phase::Submitting,
        s.attempts + 1 < s.policy.max_retries,
        already_known(message@),
        0 <= corrected_nonce(chain_count, (s.attempts + 1) as u32) <= u64::MAX,
    ensures
        ({
            let (s1, rest) = next(s, Event::SendFailed(message));
            let (s2, query) = next(s1, Event::BackoffElapsed);
            let (s3, estimate) = next(s2, Event::NonceCount(chain_count));
            &&& rest == Action::Backoff(backoff(s.policy.base_delay_ms, (s.attempts + 1) as u32) as u64)
            &&& s1.adjust_nonce
            &&& query == Action::QueryNonce(s.address)
            &&& estimate == Action::EstimateFee
            &&& s3.phase == Phase::Estimating
            &&& s3.attempts == s.attempts + 1
            &&& s3.request.nonce == Some((chain_count + s.attempts + 1 - 2) as nat)
            &&& s.attempts == 0 ==> s3.request.nonce == Some((chain_count - 1) as nat)
            &&& s3.request == (RequestView {
                nonce: s3.request.nonce,
                gas: s.draft_gas,
                ..s.request
            })
        }),
{
}

/// Backoff. The rest before the attempt with index `k + 1` is the base
/// delay times `k + 1`, and with a base delay above zero it is longer than
/// the rest before the attempt with index `k`.
pub proof fn law_backoff_grows(base_delay_ms: u32, k: u32)
    requires
        k < u32::MAX,
    ensures
        backoff(base_delay_ms, (k + 1) as u32) == base_delay_ms * (k + 1),
        backoff(base_delay_ms, (k + 1) as u32) <= u64::MAX,
        base_delay_ms > 0 ==> backoff(base_delay_ms, k) < backoff(base_delay_ms, (k + 1) as u32),
{
    assert(base_delay_ms * (k + 1) == base_delay_ms * k + base_delay_ms) by (nonlinear_arith);
    assert(base_delay_ms * (k + 1) <= u64::MAX) by (nonlinear_arith)
        requires
            base_delay_ms <= 0xffff_ffff,
            k + 1 <= 0xffff_ffff,
    ;
    assert(base_delay_ms * k >= 0) by (nonlinear_arith);
}

/// The rest that the machine orders. A retryable failure of the attempt
/// with index `k`, with an attempt left, is followed by a rest of the base
/// delay times `k + 1`, and then by the attempt with index `k + 1`.
pub proof fn law_failure_rests_before_retry(s: SubmissionView, event: Event)
    requires
        s.phase == Phase::Estimating || s.phase == Phase::Submitting,
        event is EstimationFailed || event is SendFailed,
        s.phase == Phase::Estimating <==> event is EstimationFailed,
        s.attempts + 1 < s.policy.max_retries,
    ensures
        ({
            let (s1, rest) = next(s, event);
            &&& rest == Action::Backoff((s.policy.base_delay_ms * (s.attempts + 1)) as u64)
            &&& s.policy.base_delay_ms * (s.attempts + 1) <= u64::MAX
            &&& s1.phase == Phase::BackingOff
            &&& s1.attempts == s.attempts + 1
        }),
{
    law_backoff_grows(s.policy.base_delay_ms, s.attempts);
}

/// A failed wait is final. Where waiting for the confirmations fails, the
/// submission ends with that error at once, whatever attempts are left,
/// and no event that follows makes it submit again.
pub proof fn law_confirmation_failure_is_final(
    s: SubmissionView,
    message: String,
    events: Seq<Event>,
)
    requires
        s.phase == Phase::AwaitingConfirmation,
    ensures
        ({
            let (s1, action) = next(s, Event::ConfirmationFailed(message));
            &&& action == Action::Finish(Err(SubmissionError::Confirmation(message)))
            &&& s1 == (SubmissionView { phase: Phase::Failed, ..s })
            &&& run(s1, events).0 == s1
            &&& sends(run(s1, events).1) == 0
        }),
{
    let (s1, action) = next(s, Event::ConfirmationFailed(message));
    lemma_finished_stays(s1, events);
}

/// A submission that is over stays as it is: every further event is
/// answered by [`Action::Idle`].
pub proof fn lemma_finished_stays(s: SubmissionView, events: Seq<Event>)
    requires
        s.finished(),
    ensures
        run(s, events).0 == s,
        sends(run(s, events).1) == 0,
        run(s, events).1.len() == events.len(),
        forall|i: int| 0 <= i < events.len() ==> run(s, events).1[i] == Action::Idle,
    decreases events.len(),
{
    if events.len() > 0 {
        lemma_finished_stays(s, events.drop_last());
        let (before, actions) = run(s, events.drop_last());
        lemma_sends_push(actions, Action::Idle);
    }
}

/// The correction flag stays. Once a duplicate was reported, every later
/// state of the submission has the flag set; and the report itself leaves
/// the request of the attempt that met it as it was.
pub proof fn law_correction_flag_stays(s: SubmissionView, event: Event)
    ensures
        s.adjust_nonce ==> next(s, event).0.adjust_nonce,
        (s.phase == Phase::Submitting && event is SendFailed) ==> next(s, event).0.request
            == s.request,
        (s.phase == Phase::Submitting && event is SendFailed && already_known(
            event->SendFailed_0@,
        )) ==> next(s, event).0.adjust_nonce,
        (!s.adjust_nonce && next(s, event).0.adjust_nonce) ==> (s.phase == Phase::Submitting
            && event is SendFailed && already_known(event->SendFailed_0@)),
{
}

/// A fee question repeats. The question for a request is settled by the
/// request alone: asked twice for the same request it is the same legacy
/// query, and asking changes nothing.
pub proof fn law_fee_question_repeats(first: TransactionRequest, second: TransactionRequest)
    requires
        first == second,
    ensures
        fee_query(first) == fee_query(second),
        fee_query(first).style == FeeStyle::Legacy,
        fee_query(first).request == first,
{
}

/// The events of `k` attempts in a row that the network estimates and then
/// rejects, each with the end of the rest that follows it. Attempt `i` is
/// estimated at `estimates[i]` and rejected with `messages[i]`.
pub open spec fn rejected_rounds(estimates: Seq<Amount>, messages: Seq<String>, k: nat) -> Seq<
    Event,
>
    decreases k,
{
    if k == 0 {
        Seq::empty()
    } else {
        rejected_rounds(estimates, messages, (k - 1) as nat).push(
            Event::FeeEstimated(estimates[k - 1]),
        ).push(Event::SendFailed(messages[k - 1])).push(Event::BackoffElapsed)
    }
}

/// After `k` rejected attempts, none of them a duplicate report and with an
/// attempt still left, the submission has submitted `k` times and stands at
/// the estimate of attempt `k`, with the caller's draft unchanged.
pub proof fn lemma_rejected_rounds(
    address: Address,
    policy: RetryPolicy,
    num_confirmations: usize,
    request: RequestView,
    estimates: Seq<Amount>,
    messages: Seq<String>,
    k: nat,
)
    requires
        k < policy.max_retries,
        k <= estimates.len(),
        k <= messages.len(),
        forall|i: int| 0 <= i < k ==> !already_known(#[trigger] messages[i]@),
    ensures
        ({
            let s0 = start(address, policy, num_confirmations, request).0;
            let (s, actions) = run(s0, rejected_rounds(estimates, messages, k));
            &&& s == (SubmissionView { attempts: k as u32, ..s0 })
            &&& s.phase == Phase::Estimating
            &&& s.request == request
            &&& sends(actions) == k
        }),
    decreases k,
{
    let s0 = start(address, policy, num_confirmations, request).0;
    if k == 0 {
        assert(s0.request =~= request);
    } else {
        let j = (k - 1) as nat;
        lemma_rejected_rounds(address, policy, num_confirmations, request, estimates, messages, j);
        let e0 = rejected_rounds(estimates, messages, j);
        let e1 = e0.push(Event::FeeEstimated(estimates[k - 1]));
        let e2 = e1.push(Event::SendFailed(messages[k - 1]));
        let (t0, a0) = run(s0, e0);
        lemma_run_push(s0, e0, Event::FeeEstimated(estimates[k - 1]));
        let (t1, a1) = run(s0, e1);
        lemma_sends_push(a0, next(t0, Event::FeeEstimated(estimates[k - 1])).1);
        lemma_run_push(s0, e1, Event::SendFailed(messages[k - 1]));
        let (t2, a2) = run(s0, e2);
        lemma_sends_push(a1, next(t1, Event::SendFailed(messages[k - 1])).1);
        lemma_run_push(s0, e2, Event::BackoffElapsed);
        lemma_sends_push(a2, next(t2, Event::BackoffElapsed).1);
        let (t3, a3) = run(s0, e2.push(Event::BackoffElapsed));
        assert(t3.request =~= request);
    }
}

/// The retry bound, met exactly. Where the network estimates every attempt
/// and rejects every submission, never as a duplicate, the submission
/// submits exactly as often as its policy allows, ends with the error of the
/// last rejection, and is then over.
pub proof fn law_always_rejected(
    address: Address,
    policy: RetryPolicy,
    num_confirmations: usize,
    request: RequestView,
    estimates: Seq<Amount>,
    messages: Seq<String>,
)
    requires
        policy.max_retries >= 1,
        estimates.len() == policy.max_retries,
        messages.len() == policy.max_retries,
        forall|i: int| 0 <= i < messages.len() ==> !already_known(#[trigger] messages[i]@),
    ensures
        ({
            let s0 = start(address, policy, num_confirmations, request).0;
            let events = rejected_rounds(
                estimates,
                messages,
                (policy.max_retries - 1) as nat,
            ).push(Event::FeeEstimated(estimates.last())).push(Event::SendFailed(messages.last()));
            let (s, actions) = run(s0, events);
            &&& sends(actions) == policy.max_retries
            &&& actions.last() == Action::Finish(Err(SubmissionError::Other(messages.last())))
            &&& s.phase == Phase::Failed
            &&& s.attempts == policy.max_retries - 1
        }),
{
    let s0 = start(address, policy, num_confirmations, request).0;
    let j = (policy.max_retries - 1) as nat;
    lemma_rejected_rounds(address, policy, num_confirmations, request, estimates, messages, j);
    let e0 = rejected_rounds(estimates, messages, j);
    let e1 = e0.push(Event::FeeEstimated(estimates.last()));
    let (t0, a0) = run(s0, e0);
    lemma_run_push(s0, e0, Event::FeeEstimated(estimates.last()));
    let (t1, a1) = run(s0, e1);
    lemma_sends_push(a0, next(t0, Event::FeeEstimated(estimates.last())).1);
    lemma_run_push(s0, e1, Event::SendFailed(messages.last()));
    lemma_sends_push(a1, next(t1, Event::SendFailed(messages.last())).1);
}

} // verus!
