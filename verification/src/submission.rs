//! One submission as a state machine: what to do next, given what the
//! network answered.

use vstd::prelude::*;
use crate::amount::Amount;
use crate::fee::{inflate_fee, inflated};
use crate::policy::{backoff, RetryPolicy};
use crate::request::{amount_view, Address, RequestView, TransactionRequest};
use crate::text::{already_known, is_already_known};

verus! {

/// Where a submission stands.
#[derive(Clone, Copy, Debug, PartialEq, Eq, Structural)]
pub enum Phase {
    /// Waiting for the identity's transaction count, to correct the nonce.
    QueryingNonce,
    /// Waiting for a fee estimate.
    Estimating,
    /// Waiting for the network to accept or reject the transaction.
    Submitting,
    /// Accepted; waiting for the confirmations.
    AwaitingConfirmation,
    /// Resting before the next attempt.
    BackingOff,
    /// Over: the transaction is confirmed.
    Confirmed,
    /// Over: the submission failed.
    Failed,
}

/// Why a submission, or one attempt of it, failed.
#[derive(Clone, Debug, PartialEq, Eq)]
pub enum SubmissionError {
    /// The transaction count could not be had; the text is the client's.
    NonceQuery(String),
    /// The corrected nonce would lie below zero or above 64 bits.
    NonceOutOfRange { chain_count: u64, attempts: u32 },
    /// The fee could not be estimated.
    Estimation(String),
    /// The network rejected the transaction as one it already holds.
    AlreadyKnown(String),
    /// The network rejected the transaction for another reason.
    Other(String),
    /// Waiting for the confirmations failed.
    Confirmation(String),
    /// An event arrived that answers no action of the current phase.
    OutOfTurn,
}

impl SubmissionError {
    /// Whether another attempt may follow this failure.
    pub open spec fn retryable(self) -> bool {
        self is Estimation || self is AlreadyKnown || self is Other
    }

    /// Whether another attempt may follow this failure.
    pub fn is_retryable(&self) -> (retry: bool)
        ensures
            retry == self.retryable(),
    {
        match self {
            SubmissionError::Estimation(_) => true,
            SubmissionError::AlreadyKnown(_) => true,
            SubmissionError::Other(_) => true,
            _ => false,
        }
    }
}

/// What the network answered to the last action.
#[derive(Clone, Debug, PartialEq, Eq)]
pub enum Event {
    /// The identity's transaction count on the chain.
    NonceCount(u64),
    /// The transaction count could not be had.
    NonceQueryFailed(String),
    /// The fee estimate for the current request.
    FeeEstimated(Amount),
    /// The fee could not be estimated.
    EstimationFailed(String),
    /// The network accepted the transaction.
    Sent,
    /// The network rejected the transaction, with these words.
    SendFailed(String),
    /// The confirmations were observed.
    Confirmed,
    /// Waiting for the confirmations failed.
    ConfirmationFailed(String),
    /// The rest is over.
    BackoffElapsed,
}

/// What the caller is to do next.
#[derive(Debug, PartialEq, Eq)]
pub enum Action {
    /// Ask the network for the transaction count of this address.
    QueryNonce(Address),
    /// Ask the network for a fee estimate for the current request.
    EstimateFee,
    /// Submit the current request.
    Send,
    /// Wait until this many confirmations are observed.
    AwaitConfirmations(usize),
    /// Rest for this many milliseconds.
    Backoff(u64),
    /// Return this result: the submission is over.
    Finish(Result<(), SubmissionError>),
    /// Nothing: the submission was over before the event came.
    Idle,
}

/// How one event moved the current attempt.
#[derive(Debug, PartialEq, Eq)]
pub enum AttemptOutcome {
    /// The attempt goes on with this action.
    Pending(Action),
    /// The attempt ended with the transaction confirmed.
    Succeeded,
    /// The attempt ended in this failure.
    Failed(SubmissionError),
}

/// The mathematical value of a [`Submission`].
pub struct SubmissionView {
    /// The identity that submits.
    pub address: Address,
    pub policy: RetryPolicy,
    pub num_confirmations: usize,
    /// The request of the current attempt.
    pub request: RequestView,
    /// The fee limit of the caller's draft, from which each estimate starts.
    pub draft_gas: Option<nat>,
    /// The index of the current attempt; the first has index zero.
    pub attempts: u32,
    /// Whether the nonce is corrected before each further attempt.
    pub adjust_nonce: bool,
    pub phase: Phase,
}

impl SubmissionView {
    /// Whether the submission is over.
    pub open spec fn finished(self) -> bool {
        self.phase == Phase::Confirmed || self.phase == Phase::Failed
    }
}

/// The nonce that a corrected attempt uses: the chain's transaction count
/// and the attempt's index, less two.
pub open spec fn corrected_nonce(chain_count: u64, attempts: u32) -> int {
    chain_count + attempts - 2
}

/// The error that a rejection with this text is.
pub open spec fn classify(message: String) -> SubmissionError {
    if already_known(message@) {
        SubmissionError::AlreadyKnown(message)
    } else {
        SubmissionError::Other(message)
    }
}

/// The start of the attempt with index `s.attempts`: with the correction
/// flag set the chain is asked for the transaction count first, without it
/// the fee is estimated for the draft as it stands.
pub open spec fn begin_attempt(s: SubmissionView) -> (SubmissionView, Action) {
    if s.adjust_nonce {
        (SubmissionView { phase: Phase::QueryingNonce, ..s }, Action::QueryNonce(s.address))
    } else {
        (
            SubmissionView {
                phase: Phase::Estimating,
                request: RequestView { gas: s.draft_gas, ..s.request },
                ..s
            },
            Action::EstimateFee,
        )
    }
}

/// The start of a submission. A policy of no attempts ends it at once, in
/// success and without a word to the network.
pub open spec fn start(
    address: Address,
    policy: RetryPolicy,
    num_confirmations: usize,
    request: RequestView,
) -> (SubmissionView, Action) {
    let s = SubmissionView {
        address,
        policy,
        num_confirmations,
        request,
        draft_gas: request.gas,
        attempts: 0,
        adjust_nonce: false,
        phase: Phase::Estimating,
    };
    if policy.max_retries == 0 {
        (SubmissionView { phase: Phase::Confirmed, ..s }, Action::Finish(Ok(())))
    } else {
        begin_attempt(s)
    }
}

/// What follows a failure. A duplicate report sets the correction flag.
/// Where the failure is retryable and an attempt is left, the submission
/// rests for the base delay times the next attempt's index; otherwise it
/// ends with the failure.
pub open spec fn fail_attempt(s: SubmissionView, error: SubmissionError) -> (
    SubmissionView,
    Action,
) {
    let adjust_nonce = s.adjust_nonce || error is AlreadyKnown;
    if error.retryable() && s.attempts + 1 < s.policy.max_retries {
        (
            SubmissionView {
                phase: Phase::BackingOff,
                attempts: (s.attempts + 1) as u32,
                adjust_nonce,
                ..s
            },
            Action::Backoff(backoff(s.policy.base_delay_ms, (s.attempts + 1) as u32) as u64),
        )
    } else {
        (SubmissionView { phase: Phase::Failed, adjust_nonce, ..s }, Action::Finish(Err(error)))
    }
}

/// One event within an attempt: estimate, send, await the confirmations.
pub open spec fn attempt_next(s: SubmissionView, event: Event) -> (SubmissionView, AttemptOutcome) {
    match (s.phase, event) {
        (Phase::Estimating, Event::FeeEstimated(estimate)) => (
            SubmissionView {
                phase: Phase::Submitting,
                request: RequestView { gas: Some(inflated(estimate@)), ..s.request },
                ..s
            },
            AttemptOutcome::Pending(Action::Send),
        ),
        (Phase::Estimating, Event::EstimationFailed(message)) => (
            s,
            AttemptOutcome::Failed(SubmissionError::Estimation(message)),
        ),
        (Phase::Submitting, Event::Sent) => (
            SubmissionView { phase: Phase::AwaitingConfirmation, ..s },
            AttemptOutcome::Pending(Action::AwaitConfirmations(s.num_confirmations)),
        ),
        (Phase::Submitting, Event::SendFailed(message)) => (
            s,
            AttemptOutcome::Failed(classify(message)),
        ),
        (Phase::AwaitingConfirmation, Event::Confirmed) => (s, AttemptOutcome::Succeeded),
        (Phase::AwaitingConfirmation, Event::ConfirmationFailed(message)) => (
            s,
            AttemptOutcome::Failed(SubmissionError::Confirmation(message)),
        ),
        _ => (s, AttemptOutcome::Failed(SubmissionError::OutOfTurn)),
    }
}

/// The answer to the transaction count: the corrected nonce goes into the
/// request and the fee is estimated; a nonce outside 64 bits ends the
/// submission.
pub open spec fn correct_nonce(s: SubmissionView, chain_count: u64) -> (SubmissionView, Action) {
    let nonce = corrected_nonce(chain_count, s.attempts);
    if 0 <= nonce <= u64::MAX {
        (
            SubmissionView {
                phase: Phase::Estimating,
                request: RequestView { nonce: Some(nonce as nat), gas: s.draft_gas, ..s.request },
                ..s
            },
            Action::EstimateFee,
        )
    } else {
        fail_attempt(s, SubmissionError::NonceOutOfRange { chain_count, attempts: s.attempts })
    }
}

/// The transition of the machine: the state and the action that follow a
/// state and an event.
pub open spec fn next(s: SubmissionView, event: Event) -> (SubmissionView, Action) {
    match s.phase {
        Phase::Confirmed | Phase::Failed => (s, Action::Idle),
        Phase::QueryingNonce => match event {
            Event::NonceCount(chain_count) => correct_nonce(s, chain_count),
            Event::NonceQueryFailed(message) => fail_attempt(
                s,
                SubmissionError::NonceQuery(message),
            ),
            _ => fail_attempt(s, SubmissionError::OutOfTurn),
        },
        Phase::BackingOff => match event {
            Event::BackoffElapsed => begin_attempt(s),
            _ => fail_attempt(s, SubmissionError::OutOfTurn),
        },
        _ => {
            let (after, outcome) = attempt_next(s, event);
            match outcome {
                AttemptOutcome::Pending(action) => (after, action),
                AttemptOutcome::Succeeded => (
                    SubmissionView { phase: Phase::Confirmed, ..after },
                    Action::Finish(Ok(())),
                ),
                AttemptOutcome::Failed(error) => fail_attempt(after, error),
            }
        },
    }
}

/// One submission in progress.
#[derive(Debug)]
pub struct Submission {
    address: Address,
    policy: RetryPolicy,
    num_confirmations: usize,
    request: TransactionRequest,
    draft_gas: Option<Amount>,
    attempts: u32,
    adjust_nonce: bool,
    phase: Phase,
}

impl View for Submission {
    type V = SubmissionView;

    closed spec fn view(&self) -> SubmissionView {
        SubmissionView {
            address: self.address,
            policy: self.policy,
            num_confirmations: self.num_confirmations,
            request: self.request@,
            draft_gas: amount_view(self.draft_gas),
            attempts: self.attempts,
            adjust_nonce: self.adjust_nonce,
            phase: self.phase,
        }
    }
}

impl Submission {
    /// Starts the submission of `request` for the identity `address`, and
    /// says what to do first.
    pub fn start(
        address: Address,
        policy: RetryPolicy,
        num_confirmations: usize,
        request: TransactionRequest,
    ) -> (started: (Submission, Action))
        ensures
            (started.0@, started.1) == start(address, policy, num_confirmations, request@),
    {
        let draft_gas = request.gas;
        let mut submission = Submission {
            address,
            policy,
            num_confirmations,
            request,
            draft_gas,
            attempts: 0,
            adjust_nonce: false,
            phase: Phase::Estimating,
        };
        if policy.max_retries == 0 {
            submission.phase = Phase::Confirmed;
            (submission, Action::Finish(Ok(())))
        } else {
            let action = submission.begin_attempt();
            (submission, action)
        }
    }

    /// Where the submission stands.
    pub fn phase(&self) -> (phase: Phase)
        ensures
            phase == self@.phase,
    {
        self.phase
    }

    /// Whether the submission is over.
    pub fn is_finished(&self) -> (finished: bool)
        ensures
            finished == self@.finished(),
    {
        match self.phase {
            Phase::Confirmed => true,
            Phase::Failed => true,
            _ => false,
        }
    }

    /// The index of the current attempt; the first has index zero.
    pub fn attempts(&self) -> (attempts: u32)
        ensures
            attempts == self@.attempts,
    {
        self.attempts
    }

    /// Whether the nonce is corrected before each further attempt.
    pub fn adjusts_nonce(&self) -> (adjust: bool)
        ensures
            adjust == self@.adjust_nonce,
    {
        self.adjust_nonce
    }

    /// The request of the current attempt: what is to be estimated or sent.
    pub fn request(&self) -> (request: &TransactionRequest)
        ensures
            request@ == self@.request,
    {
        &self.request
    }

    /// The identity that submits.
    pub fn address(&self) -> (address: Address)
        ensures
            address == self@.address,
    {
        self.address
    }

    /// The policy that bounds the attempts.
    pub fn policy(&self) -> (policy: RetryPolicy)
        ensures
            policy == self@.policy,
    {
        self.policy
    }

    /// The number of confirmations that the submission waits for.
    pub fn num_confirmations(&self) -> (n: usize)
        ensures
            n == self@.num_confirmations,
    {
        self.num_confirmations
    }

    fn begin_attempt(&mut self) -> (action: Action)
        ensures
            (final(self)@, action) == begin_attempt(old(self)@),
    {
        if self.adjust_nonce {
            self.phase = Phase::QueryingNonce;
            Action::QueryNonce(self.address)
        } else {
            self.phase = Phase::Estimating;
            self.request.gas = self.draft_gas;
            Action::EstimateFee
        }
    }

    fn fail_attempt(&mut self, error: SubmissionError) -> (action: Action)
        ensures
            (final(self)@, action) == fail_attempt(old(self)@, error),
    {
        let duplicate = match &error {
            SubmissionError::AlreadyKnown(_) => true,
            _ => false,
        };
        if duplicate {
            self.adjust_nonce = true;
        }
        if error.is_retryable() && self.attempts < u32::MAX && self.attempts + 1
            < self.policy.max_retries {
            self.attempts = self.attempts + 1;
            self.phase = Phase::BackingOff;
            Action::Backoff(self.policy.backoff_delay(self.attempts))
        } else {
            self.phase = Phase::Failed;
            Action::Finish(Err(error))
        }
    }

    fn correct_nonce(&mut self, chain_count: u64) -> (action: Action)
        ensures
            (final(self)@, action) == correct_nonce(old(self)@, chain_count),
    {
        let sum: u128 = chain_count as u128 + self.attempts as u128;
        if sum >= 2 && sum - 2 <= u64::MAX as u128 {
            let nonce: u64 = (sum - 2) as u64;
            self.request.nonce = Some(Amount::from_u64(nonce));
            self.request.gas = self.draft_gas;
            self.phase = Phase::Estimating;
            Action::EstimateFee
        } else {
            self.fail_attempt(
                SubmissionError::NonceOutOfRange { chain_count, attempts: self.attempts },
            )
        }
    }

    /// Moves the current attempt by one event: a fee estimate is inflated
    /// and the request sent with it; an accepted transaction is awaited; a
    /// failure is named. Whether the submission goes on after a failure is
    /// for [`Submission::step`] to say.
    pub fn try_send_transaction(&mut self, event: Event) -> (outcome: AttemptOutcome)
        ensures
            (final(self)@, outcome) == attempt_next(old(self)@, event),
    {
        match self.phase {
            Phase::Estimating => match event {
                Event::FeeEstimated(estimate) => {
                    self.request.gas = Some(inflate_fee(estimate));
                    self.phase = Phase::Submitting;
                    AttemptOutcome::Pending(Action::Send)
                },
                Event::EstimationFailed(message) => AttemptOutcome::Failed(
                    SubmissionError::Estimation(message),
                ),
                _ => AttemptOutcome::Failed(SubmissionError::OutOfTurn),
            },
            Phase::Submitting => match event {
                Event::Sent => {
                    self.phase = Phase::AwaitingConfirmation;
                    AttemptOutcome::Pending(Action::AwaitConfirmations(self.num_confirmations))
                },
                Event::SendFailed(message) => {
                    if is_already_known(message.as_str()) {
                        AttemptOutcome::Failed(SubmissionError::AlreadyKnown(message))
                    } else {
                        AttemptOutcome::Failed(SubmissionError::Other(message))
                    }
                },
                _ => AttemptOutcome::Failed(SubmissionError::OutOfTurn),
            },
            Phase::AwaitingConfirmation => match event {
                Event::Confirmed => AttemptOutcome::Succeeded,
                Event::ConfirmationFailed(message) => AttemptOutcome::Failed(
                    SubmissionError::Confirmation(message),
                ),
                _ => AttemptOutcome::Failed(SubmissionError::OutOfTurn),
            },
            _ => AttemptOutcome::Failed(SubmissionError::OutOfTurn),
        }
    }

    /// Takes what the network answered to the last action and says what to
    /// do next.
    pub fn step(&mut self, event: Event) -> (action: Action)
        ensures
            (final(self)@, action) == next(old(self)@, event),
    {
        match self.phase {
            Phase::Confirmed => Action::Idle,
            Phase::Failed => Action::Idle,
            Phase::QueryingNonce => match event {
                Event::NonceCount(chain_count) => self.correct_nonce(chain_count),
                Event::NonceQueryFailed(message) => self.fail_attempt(
                    SubmissionError::NonceQuery(message),
                ),
                _ => self.fail_attempt(SubmissionError::OutOfTurn),
            },
            Phase::BackingOff => match event {
                Event::BackoffElapsed => self.begin_attempt(),
                _ => self.fail_attempt(SubmissionError::OutOfTurn),
            },
            _ => match self.try_send_transaction(event) {
                AttemptOutcome::Pending(action) => action,
                AttemptOutcome::Succeeded => {
                    self.phase = Phase::Confirmed;
                    Action::Finish(Ok(()))
                },
                AttemptOutcome::Failed(error) => self.fail_attempt(error),
            },
        }
    }
}

} // verus!
