use transaction_manager::amount::Amount;
use transaction_manager::manager::TransactionManager;
use transaction_manager::policy::RetryPolicy;
use transaction_manager::request::{Address, Recipient, TransactionRequest};
use transaction_manager::submission::{
    Action, AttemptOutcome, Event, Phase, Submission, SubmissionError,
};

fn sender() -> Address {
    Address { bytes: [0x11; 20] }
}

fn draft() -> TransactionRequest {
    TransactionRequest::pay(
        Recipient::Address(Address { bytes: [0x22; 20] }),
        Amount::from_u64(1_000),
    )
}

fn manager(max_retries: u32) -> TransactionManager {
    TransactionManager::new(sender(), RetryPolicy::new(max_retries, 5_000), 3)
}

fn text(words: &str) -> String {
    String::from(words)
}

#[test]
fn accepted_at_once_succeeds_after_one_attempt() {
    let (mut sub, first) = manager(2).handle_transaction(draft().nonce(Amount::from_u64(9)));
    assert_eq!(first, Action::EstimateFee);
    assert_eq!(sub.phase(), Phase::Estimating);
    assert_eq!(*sub.request(), draft().nonce(Amount::from_u64(9)));

    assert_eq!(sub.step(Event::FeeEstimated(Amount::from_u64(100))), Action::Send);
    assert_eq!(sub.phase(), Phase::Submitting);
    assert_eq!(
        *sub.request(),
        draft().nonce(Amount::from_u64(9)).gas(Amount::from_u64(110))
    );

    assert_eq!(sub.step(Event::Sent), Action::AwaitConfirmations(3));
    assert_eq!(sub.phase(), Phase::AwaitingConfirmation);

    assert_eq!(sub.step(Event::Confirmed), Action::Finish(Ok(())));
    assert_eq!(sub.phase(), Phase::Confirmed);
    assert!(sub.is_finished());
    assert_eq!(sub.attempts(), 0);
    assert!(!sub.adjusts_nonce());
}

#[test]
fn already_known_corrects_the_nonce_to_the_chain_count_less_one() {
    let (mut sub, _) = manager(2).handle_transaction(draft().nonce(Amount::from_u64(7)));
    assert_eq!(sub.step(Event::FeeEstimated(Amount::from_u64(100))), Action::Send);
    assert_eq!(
        sub.step(Event::SendFailed(text("already known"))),
        Action::Backoff(5_000)
    );
    assert!(sub.adjusts_nonce());
    assert_eq!(sub.attempts(), 1);
    assert_eq!(sub.phase(), Phase::BackingOff);

    assert_eq!(sub.step(Event::BackoffElapsed), Action::QueryNonce(sender()));
    assert_eq!(sub.phase(), Phase::QueryingNonce);

    assert_eq!(sub.step(Event::NonceCount(5)), Action::EstimateFee);
    assert_eq!(sub.request().nonce, Some(Amount::from_u64(4)));
    assert_eq!(sub.request().gas, None);
    assert_eq!(*sub.request(), draft().nonce(Amount::from_u64(4)));

    assert_eq!(sub.step(Event::FeeEstimated(Amount::from_u64(7))), Action::Send);
    assert_eq!(
        *sub.request(),
        draft().nonce(Amount::from_u64(4)).gas(Amount::from_u64(7))
    );
    assert_eq!(sub.step(Event::Sent), Action::AwaitConfirmations(3));
    assert_eq!(sub.step(Event::Confirmed), Action::Finish(Ok(())));
}

#[test]
fn a_third_attempt_uses_the_chain_count_itself() {
    let (mut sub, _) = manager(3).handle_transaction(draft());
    sub.step(Event::FeeEstimated(Amount::from_u64(100)));
    assert_eq!(
        sub.step(Event::SendFailed(text("already known"))),
        Action::Backoff(5_000)
    );
    sub.step(Event::BackoffElapsed);
    assert_eq!(sub.step(Event::NonceCount(5)), Action::EstimateFee);
    assert_eq!(sub.request().nonce, Some(Amount::from_u64(4)));
    sub.step(Event::FeeEstimated(Amount::from_u64(100)));
    assert_eq!(
        sub.step(Event::SendFailed(text("nonce too low"))),
        Action::Backoff(10_000)
    );
    // The correction stays on once a duplicate was reported.
    assert_eq!(sub.step(Event::BackoffElapsed), Action::QueryNonce(sender()));
    assert_eq!(sub.step(Event::NonceCount(5)), Action::EstimateFee);
    assert_eq!(sub.request().nonce, Some(Amount::from_u64(5)));
}

#[test]
fn always_rejected_submits_exactly_twice_by_default() {
    let manager = TransactionManager::new(sender(), RetryPolicy::default(), 1);
    let (mut sub, mut action) = manager.handle_transaction(draft());
    let mut sends = 0;
    let mut rests = Vec::new();
    let mut rejections = 0;
    let result = loop {
        let event = match action {
            Action::EstimateFee => Event::FeeEstimated(Amount::from_u64(100)),
            Action::Send => {
                sends += 1;
                rejections += 1;
                Event::SendFailed(format!("insufficient funds #{}", rejections))
            }
            Action::Backoff(delay) => {
                rests.push(delay);
                Event::BackoffElapsed
            }
            Action::Finish(result) => break result,
            other => panic!("unexpected action {:?}", other),
        };
        action = sub.step(event);
    };
    assert_eq!(sends, 2);
    assert_eq!(rests, vec![5_000]);
    assert_eq!(
        result,
        Err(SubmissionError::Other(text("insufficient funds #2")))
    );
    assert_eq!(sub.phase(), Phase::Failed);
    assert_eq!(sub.attempts(), 1);
    assert!(!sub.adjusts_nonce());
}

#[test]
fn always_rejected_submits_exactly_as_often_as_the_policy_allows() {
    for max_retries in 1..6u32 {
        let (mut sub, mut action) = manager(max_retries).handle_transaction(draft());
        let mut sends = 0u32;
        let result = loop {
            let event = match action {
                Action::EstimateFee => Event::FeeEstimated(Amount::from_u64(100)),
                Action::Send => {
                    sends += 1;
                    Event::SendFailed(text("underpriced"))
                }
                Action::Backoff(_) => Event::BackoffElapsed,
                Action::Finish(result) => break result,
                other => panic!("unexpected action {:?}", other),
            };
            action = sub.step(event);
        };
        assert_eq!(sends, max_retries);
        assert_eq!(result, Err(SubmissionError::Other(text("underpriced"))));
    }
}

#[test]
fn the_rest_grows_with_the_attempt_index() {
    let (mut sub, _) = manager(4).handle_transaction(draft());
    let mut rests = Vec::new();
    for _ in 0..3 {
        assert_eq!(sub.step(Event::FeeEstimated(Amount::from_u64(1))), Action::Send);
        match sub.step(Event::SendFailed(text("busy"))) {
            Action::Backoff(delay) => rests.push(delay),
            other => panic!("unexpected action {:?}", other),
        }
        assert_eq!(sub.step(Event::BackoffElapsed), Action::EstimateFee);
    }
    assert_eq!(rests, vec![5_000, 10_000, 15_000]);
    assert_eq!(sub.step(Event::FeeEstimated(Amount::from_u64(1))), Action::Send);
    assert_eq!(
        sub.step(Event::SendFailed(text("busy"))),
        Action::Finish(Err(SubmissionError::Other(text("busy"))))
    );
}

#[test]
fn a_failed_wait_is_not_retried() {
    let (mut sub, _) = manager(5).handle_transaction(draft());
    assert_eq!(sub.step(Event::FeeEstimated(Amount::from_u64(100))), Action::Send);
    assert_eq!(sub.step(Event::Sent), Action::AwaitConfirmations(3));
    assert_eq!(
        sub.step(Event::ConfirmationFailed(text("connection reset"))),
        Action::Finish(Err(SubmissionError::Confirmation(text("connection reset"))))
    );
    assert_eq!(sub.phase(), Phase::Failed);
    assert_eq!(sub.attempts(), 0);
    // Nothing that comes later makes it submit again.
    assert_eq!(sub.step(Event::BackoffElapsed), Action::Idle);
    assert_eq!(sub.step(Event::FeeEstimated(Amount::from_u64(100))), Action::Idle);
    assert_eq!(sub.step(Event::Sent), Action::Idle);
    assert_eq!(sub.phase(), Phase::Failed);
}

#[test]
fn a_failed_wait_that_speaks_of_a_duplicate_is_not_retried_either() {
    let (mut sub, _) = manager(5).handle_transaction(draft());
    sub.step(Event::FeeEstimated(Amount::from_u64(100)));
    sub.step(Event::Sent);
    assert_eq!(
        sub.step(Event::ConfirmationFailed(text("already known"))),
        Action::Finish(Err(SubmissionError::Confirmation(text("already known"))))
    );
    assert!(!sub.adjusts_nonce());
}

#[test]
fn a_failed_estimate_is_retried_without_nonce_correction() {
    let (mut sub, _) = manager(2).handle_transaction(draft().gas(Amount::from_u64(50)));
    assert_eq!(
        sub.step(Event::EstimationFailed(text("execution reverted"))),
        Action::Backoff(5_000)
    );
    assert!(!sub.adjusts_nonce());
    assert_eq!(sub.step(Event::BackoffElapsed), Action::EstimateFee);
    assert_eq!(*sub.request(), draft().gas(Amount::from_u64(50)));
    assert_eq!(
        sub.step(Event::EstimationFailed(text("execution reverted again"))),
        Action::Finish(Err(SubmissionError::Estimation(text(
            "execution reverted again"
        ))))
    );
}

#[test]
fn each_estimate_starts_from_the_fee_limit_of_the_draft() {
    let (mut sub, _) = manager(2).handle_transaction(draft().gas(Amount::from_u64(50)));
    assert_eq!(sub.request().gas, Some(Amount::from_u64(50)));
    sub.step(Event::FeeEstimated(Amount::from_u64(200)));
    assert_eq!(sub.request().gas, Some(Amount::from_u64(220)));
    sub.step(Event::SendFailed(text("busy")));
    assert_eq!(sub.step(Event::BackoffElapsed), Action::EstimateFee);
    assert_eq!(sub.request().gas, Some(Amount::from_u64(50)));
}

#[test]
fn a_duplicate_report_on_the_last_attempt_ends_the_submission() {
    let (mut sub, _) = manager(1).handle_transaction(draft());
    assert_eq!(sub.step(Event::FeeEstimated(Amount::from_u64(100))), Action::Send);
    assert_eq!(
        sub.step(Event::SendFailed(text("tx already known"))),
        Action::Finish(Err(SubmissionError::AlreadyKnown(text("tx already known"))))
    );
    assert!(sub.adjusts_nonce());
    assert_eq!(sub.phase(), Phase::Failed);
}

#[test]
fn a_failed_count_query_ends_the_submission() {
    let (mut sub, _) = manager(3).handle_transaction(draft());
    sub.step(Event::FeeEstimated(Amount::from_u64(100)));
    sub.step(Event::SendFailed(text("already known")));
    assert_eq!(sub.step(Event::BackoffElapsed), Action::QueryNonce(sender()));
    assert_eq!(
        sub.step(Event::NonceQueryFailed(text("timeout"))),
        Action::Finish(Err(SubmissionError::NonceQuery(text("timeout"))))
    );
    assert_eq!(sub.phase(), Phase::Failed);
}

#[test]
fn a_corrected_nonce_below_zero_ends_the_submission() {
    let (mut sub, _) = manager(3).handle_transaction(draft());
    sub.step(Event::FeeEstimated(Amount::from_u64(100)));
    sub.step(Event::SendFailed(text("already known")));
    sub.step(Event::BackoffElapsed);
    assert_eq!(
        sub.step(Event::NonceCount(0)),
        Action::Finish(Err(SubmissionError::NonceOutOfRange {
            chain_count: 0,
            attempts: 1
        }))
    );
    assert_eq!(sub.phase(), Phase::Failed);
}

#[test]
fn a_corrected_nonce_of_zero_is_used() {
    let (mut sub, _) = manager(3).handle_transaction(draft());
    sub.step(Event::FeeEstimated(Amount::from_u64(100)));
    sub.step(Event::SendFailed(text("already known")));
    sub.step(Event::BackoffElapsed);
    assert_eq!(sub.step(Event::NonceCount(1)), Action::EstimateFee);
    assert_eq!(sub.request().nonce, Some(Amount::zero()));
}

#[test]
fn a_corrected_nonce_above_64_bits_ends_the_submission() {
    let (mut sub, _) = manager(4).handle_transaction(draft());
    sub.step(Event::FeeEstimated(Amount::from_u64(100)));
    sub.step(Event::SendFailed(text("already known")));
    sub.step(Event::BackoffElapsed);
    // attempt 1: the largest count still gives a nonce
    assert_eq!(sub.step(Event::NonceCount(u64::MAX)), Action::EstimateFee);
    assert_eq!(sub.request().nonce, Some(Amount::from_u64(u64::MAX - 1)));
    sub.step(Event::FeeEstimated(Amount::from_u64(100)));
    sub.step(Event::SendFailed(text("busy")));
    sub.step(Event::BackoffElapsed);
    // attempt 2: the count itself
    assert_eq!(sub.step(Event::NonceCount(u64::MAX)), Action::EstimateFee);
    assert_eq!(sub.request().nonce, Some(Amount::from_u64(u64::MAX)));
    sub.step(Event::FeeEstimated(Amount::from_u64(100)));
    sub.step(Event::SendFailed(text("busy")));
    sub.step(Event::BackoffElapsed);
    // attempt 3: one more than fits
    assert_eq!(
        sub.step(Event::NonceCount(u64::MAX)),
        Action::Finish(Err(SubmissionError::NonceOutOfRange {
            chain_count: u64::MAX,
            attempts: 3
        }))
    );
}

#[test]
fn an_event_out_of_turn_ends_the_submission() {
    let (mut sub, _) = manager(3).handle_transaction(draft());
    assert_eq!(
        sub.step(Event::Sent),
        Action::Finish(Err(SubmissionError::OutOfTurn))
    );
    assert_eq!(sub.phase(), Phase::Failed);

    let (mut sub, _) = manager(3).handle_transaction(draft());
    sub.step(Event::FeeEstimated(Amount::from_u64(100)));
    sub.step(Event::SendFailed(text("busy")));
    assert_eq!(
        sub.step(Event::Confirmed),
        Action::Finish(Err(SubmissionError::OutOfTurn))
    );

    let (mut sub, _) = manager(3).handle_transaction(draft());
    sub.step(Event::FeeEstimated(Amount::from_u64(100)));
    sub.step(Event::SendFailed(text("already known")));
    sub.step(Event::BackoffElapsed);
    assert_eq!(
        sub.step(Event::FeeEstimated(Amount::from_u64(100))),
        Action::Finish(Err(SubmissionError::OutOfTurn))
    );
}

#[test]
fn a_policy_of_no_attempts_ends_at_once() {
    let (mut sub, first) = manager(0).handle_transaction(draft());
    assert_eq!(first, Action::Finish(Ok(())));
    assert_eq!(sub.phase(), Phase::Confirmed);
    assert_eq!(sub.step(Event::FeeEstimated(Amount::from_u64(100))), Action::Idle);
}

#[test]
fn a_confirmed_submission_is_idle() {
    let (mut sub, _) = manager(2).handle_transaction(draft());
    sub.step(Event::FeeEstimated(Amount::from_u64(100)));
    sub.step(Event::Sent);
    sub.step(Event::Confirmed);
    assert_eq!(sub.step(Event::Confirmed), Action::Idle);
    assert_eq!(sub.step(Event::SendFailed(text("already known"))), Action::Idle);
    assert_eq!(sub.phase(), Phase::Confirmed);
    assert!(!sub.adjusts_nonce());
}

#[test]
fn an_attempt_names_its_failure_and_leaves_the_retry_to_the_step() {
    let (mut sub, _) = Submission::start(sender(), RetryPolicy::new(2, 100), 6, draft());
    assert_eq!(
        sub.try_send_transaction(Event::FeeEstimated(Amount::from_u64(10))),
        AttemptOutcome::Pending(Action::Send)
    );
    assert_eq!(sub.request().gas, Some(Amount::from_u64(11)));
    assert_eq!(
        sub.try_send_transaction(Event::SendFailed(text("already known"))),
        AttemptOutcome::Failed(SubmissionError::AlreadyKnown(text("already known")))
    );
    assert_eq!(sub.phase(), Phase::Submitting);
    assert_eq!(sub.attempts(), 0);
    assert!(!sub.adjusts_nonce());
    assert_eq!(
        sub.try_send_transaction(Event::Sent),
        AttemptOutcome::Pending(Action::AwaitConfirmations(6))
    );
    assert_eq!(
        sub.try_send_transaction(Event::BackoffElapsed),
        AttemptOutcome::Failed(SubmissionError::OutOfTurn)
    );
    assert_eq!(
        sub.try_send_transaction(Event::Confirmed),
        AttemptOutcome::Succeeded
    );
}

#[test]
fn retryable_failures_are_those_of_estimate_and_submission() {
    assert!(SubmissionError::Estimation(text("x")).is_retryable());
    assert!(SubmissionError::AlreadyKnown(text("x")).is_retryable());
    assert!(SubmissionError::Other(text("x")).is_retryable());
    assert!(!SubmissionError::Confirmation(text("x")).is_retryable());
    assert!(!SubmissionError::NonceQuery(text("x")).is_retryable());
    assert!(!SubmissionError::OutOfTurn.is_retryable());
    assert!(!SubmissionError::NonceOutOfRange { chain_count: 0, attempts: 1 }.is_retryable());
}

#[test]
fn a_submission_reports_what_it_was_started_with() {
    let policy = RetryPolicy::new(4, 250);
    let (sub, _) = Submission::start(sender(), policy, 12, draft());
    assert_eq!(sub.address(), sender());
    assert_eq!(sub.policy(), policy);
    assert_eq!(sub.num_confirmations(), 12);
    assert!(!sub.is_finished());
}

#[test]
fn no_run_of_events_submits_more_often_than_the_policy_allows() {
    let mut seed: u64 = 0x9e37_79b9_7f4a_7c15;
    for round in 0..400u32 {
        let max_retries = round % 5;
        let (mut sub, first) = manager(max_retries).handle_transaction(draft());
        let mut sends = u32::from(first == Action::Send);
        for _ in 0..40 {
            seed = seed
                .wrapping_mul(6_364_136_223_846_793_005)
                .wrapping_add(1_442_695_040_888_963_407);
            let event = match (seed >> 33) % 9 {
                0 => Event::NonceCount(seed >> 40),
                1 => Event::NonceQueryFailed(text("timeout")),
                2 => Event::FeeEstimated(Amount::from_u64(seed >> 20)),
                3 => Event::EstimationFailed(text("reverted")),
                4 => Event::Sent,
                5 => Event::SendFailed(text("already known")),
                6 => Event::SendFailed(text("underpriced")),
                7 => Event::Confirmed,
                _ => Event::BackoffElapsed,
            };
            let was_finished = sub.is_finished();
            let action = sub.step(event);
            if action == Action::Send {
                sends += 1;
            }
            if was_finished {
                assert_eq!(action, Action::Idle);
            }
            assert!(sub.is_finished() || sub.attempts() < max_retries);
        }
        assert!(sends <= max_retries);
    }
}
