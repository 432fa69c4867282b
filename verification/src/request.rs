//! The draft of an operation that is to be submitted.

use vstd::prelude::*;
use crate::amount::Amount;

verus! {

/// The address of an account: twenty bytes.
#[derive(Clone, Copy, Debug, PartialEq, Eq)]
pub struct Address {
    pub bytes: [u8; 20],
}

impl View for Address {
    type V = Seq<u8>;

    open spec fn view(&self) -> Seq<u8> {
        self.bytes@
    }
}

/// Whom a transaction is sent to: a registered name, which the network
/// client resolves, or an address.
#[derive(Clone, Debug, PartialEq, Eq)]
pub enum Recipient {
    Name(String),
    Address(Address),
}

/// The mathematical value of a [`Recipient`].
pub enum RecipientView {
    Name(Seq<char>),
    Address(Seq<u8>),
}

impl View for Recipient {
    type V = RecipientView;

    open spec fn view(&self) -> RecipientView {
        match self {
            Recipient::Name(name) => RecipientView::Name(name@),
            Recipient::Address(address) => RecipientView::Address(address@),
        }
    }
}

/// A draft of a state-changing operation. Every field is optional: what is
/// left out is filled in by the network client.
#[derive(Clone, Debug, PartialEq, Eq)]
pub struct TransactionRequest {
    /// The sender.
    pub from: Option<Address>,
    /// The recipient; none for the creation of a contract.
    pub to: Option<Recipient>,
    /// The fee limit offered.
    pub gas: Option<Amount>,
    /// The price offered per unit of fee.
    pub gas_price: Option<Amount>,
    /// The value transferred.
    pub value: Option<Amount>,
    /// The payload.
    pub data: Option<Vec<u8>>,
    /// The sender's sequence number for this transaction.
    pub nonce: Option<Amount>,
    /// The network the transaction is meant for.
    pub chain_id: Option<u64>,
}

/// The mathematical value of a [`TransactionRequest`].
pub struct RequestView {
    pub from: Option<Seq<u8>>,
    pub to: Option<RecipientView>,
    pub gas: Option<nat>,
    pub gas_price: Option<nat>,
    pub value: Option<nat>,
    pub data: Option<Seq<u8>>,
    pub nonce: Option<nat>,
    pub chain_id: Option<u64>,
}

/// The value of an optional amount.
pub open spec fn amount_view(amount: Option<Amount>) -> Option<nat> {
    match amount {
        Some(a) => Some(a@),
        None => None,
    }
}

impl View for TransactionRequest {
    type V = RequestView;

    open spec fn view(&self) -> RequestView {
        RequestView {
            from: match self.from {
                Some(a) => Some(a@),
                None => None,
            },
            to: match self.to {
                Some(r) => Some(r@),
                None => None,
            },
            gas: amount_view(self.gas),
            gas_price: amount_view(self.gas_price),
            value: amount_view(self.value),
            data: match self.data {
                Some(d) => Some(d@),
                None => None,
            },
            nonce: amount_view(self.nonce),
            chain_id: self.chain_id,
        }
    }
}

impl RequestView {
    /// The request with every field left out.
    pub open spec fn empty() -> RequestView {
        RequestView {
            from: None,
            to: None,
            gas: None,
            gas_price: None,
            value: None,
            data: None,
            nonce: None,
            chain_id: None,
        }
    }
}

impl TransactionRequest {
    /// A request with every field left out.
    pub fn new() -> (request: TransactionRequest)
        ensures
            request@ == RequestView::empty(),
    {
        TransactionRequest {
            from: None,
            to: None,
            gas: None,
            gas_price: None,
            value: None,
            data: None,
            nonce: None,
            chain_id: None,
        }
    }

    /// A payment of `value` to `to`, with every other field left out.
    pub fn pay(to: Recipient, value: Amount) -> (request: TransactionRequest)
        ensures
            request@ == (RequestView { to: Some(to@), value: Some(value@), ..RequestView::empty() }),
    {
        TransactionRequest {
            from: None,
            to: Some(to),
            gas: None,
            gas_price: None,
            value: Some(value),
            data: None,
            nonce: None,
            chain_id: None,
        }
    }

    /// The request with its sender set.
    pub fn from(self, from: Address) -> (request: TransactionRequest)
        ensures
            request@ == (RequestView { from: Some(from@), ..self@ }),
    {
        let mut request = self;
        request.from = Some(from);
        request
    }

    /// The request with its recipient set.
    pub fn to(self, to: Recipient) -> (request: TransactionRequest)
        ensures
            request@ == (RequestView { to: Some(to@), ..self@ }),
    {
        let mut request = self;
        request.to = Some(to);
        request
    }

    /// The request with its fee limit set.
    pub fn gas(self, gas: Amount) -> (request: TransactionRequest)
        ensures
            request@ == (RequestView { gas: Some(gas@), ..self@ }),
    {
        let mut request = self;
        request.gas = Some(gas);
        request
    }

    /// The request with its fee price set.
    pub fn gas_price(self, gas_price: Amount) -> (request: TransactionRequest)
        ensures
            request@ == (RequestView { gas_price: Some(gas_price@), ..self@ }),
    {
        let mut request = self;
        request.gas_price = Some(gas_price);
        request
    }

    /// The request with its transferred value set.
    pub fn value(self, value: Amount) -> (request: TransactionRequest)
        ensures
            request@ == (RequestView { value: Some(value@), ..self@ }),
    {
        let mut request = self;
        request.value = Some(value);
        request
    }

    /// The request with its payload set.
    pub fn data(self, data: Vec<u8>) -> (request: TransactionRequest)
        ensures
            request@ == (RequestView { data: Some(data@), ..self@ }),
    {
        let mut request = self;
        request.data = Some(data);
        request
    }

    /// The request with its nonce set.
    pub fn nonce(self, nonce: Amount) -> (request: TransactionRequest)
        ensures
            request@ == (RequestView { nonce: Some(nonce@), ..self@ }),
    {
        let mut request = self;
        request.nonce = Some(nonce);
        request
    }

    /// The request with its network set.
    pub fn chain_id(self, chain_id: u64) -> (request: TransactionRequest)
        ensures
            request@ == (RequestView { chain_id: Some(chain_id), ..self@ }),
    {
        let mut request = self;
        request.chain_id = Some(chain_id);
        request
    }
}

} // verus!
