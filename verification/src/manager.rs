//! The transaction manager: an identity, its retry policy, and the
//! submissions it begins.

use vstd::prelude::*;
use crate::amount::Amount;
use crate::policy::RetryPolicy;
use crate::request::{Address, TransactionRequest};
use crate::submission::{start, Action, Submission, SubmissionError};

verus! {

/// The style in which a fee is asked for.
#[derive(Clone, Copy, Debug, PartialEq, Eq, Structural)]
pub enum FeeStyle {
    /// One price per unit of fee.
    Legacy,
    /// A legacy transaction with an access list.
    AccessList,
    /// A base fee and a priority fee.
    DynamicFee,
}

/// A question to the network: what would this request cost, against the
/// latest block?
#[derive(Debug, PartialEq, Eq)]
pub struct FeeQuery {
    pub style: FeeStyle,
    pub request: TransactionRequest,
}

/// The fee question for a request: a legacy-style query for the request as
/// it stands.
pub open spec fn fee_query(transaction: TransactionRequest) -> FeeQuery {
    FeeQuery { style: FeeStyle::Legacy, request: transaction }
}

/// Submits transactions for one identity.
#[derive(Clone, Copy, Debug, PartialEq, Eq)]
pub struct TransactionManager {
    /// The identity's address.
    pub address: Address,
    /// The bound on attempts and the backoff of every submission.
    pub policy: RetryPolicy,
    /// The number of confirmations that a submission waits for.
    pub num_confirmations: usize,
}

impl TransactionManager {
    /// A manager for the identity `address`.
    pub fn new(address: Address, policy: RetryPolicy, num_confirmations: usize) -> (manager:
        TransactionManager)
        ensures
            manager == (TransactionManager { address, policy, num_confirmations }),
    {
        TransactionManager { address, policy, num_confirmations }
    }

    /// The identity's address.
    pub fn get_address(&self) -> (address: Address)
        ensures
            address == self.address,
    {
        self.address
    }

    /// Begins the submission of `transaction` and says what to do first.
    /// The caller performs each action and hands the network's answer to
    /// [`Submission::step`], until the action is [`Action::Finish`].
    pub fn handle_transaction(&self, transaction: TransactionRequest) -> (started: (
        Submission,
        Action,
    ))
        ensures
            (started.0@, started.1) == start(
                self.address,
                self.policy,
                self.num_confirmations,
                transaction@,
            ),
    {
        Submission::start(self.address, self.policy, self.num_confirmations, transaction)
    }

    /// The fee question for `transaction`: a legacy-style query for the
    /// request as it stands. Nothing is submitted.
    pub fn estimate_gas(&self, transaction: TransactionRequest) -> (query: FeeQuery)
        ensures
            query == fee_query(transaction),
    {
        FeeQuery { style: FeeStyle::Legacy, request: transaction }
    }

    /// The quote that the network's answer to a fee question amounts to:
    /// the estimate itself, or the estimation error with the client's words.
    pub fn fee_quote(&self, answer: Result<Amount, String>) -> (quote: Result<
        Amount,
        SubmissionError,
    >)
        ensures
            quote == match answer {
                Ok(estimate) => Ok::<Amount, SubmissionError>(estimate),
                Err(message) => Err(SubmissionError::Estimation(message)),
            },
    {
        match answer {
            Ok(estimate) => Ok(estimate),
            Err(message) => Err(SubmissionError::Estimation(message)),
        }
    }
}

} // verus!
