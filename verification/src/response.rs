//! What a transition hands back: attributes for the caller and the outbound
//! messages that the host is asked to carry out.

use crate::state::{coins_view, Coin, CoinView};
use vstd::prelude::*;

verus! {

/// A key and a value reported to the caller.
#[derive(Debug, PartialEq, Eq)]
pub struct Attribute {
    pub key: String,
    pub value: String,
}

impl View for Attribute {
    type V = (Seq<char>, Seq<char>);

    open spec fn view(&self) -> (Seq<char>, Seq<char>) {
        (self.key@, self.value@)
    }
}

/// An instruction for the host to carry out once the transition is committed.
#[derive(Debug, PartialEq, Eq)]
pub enum CosmosMsg {
    /// Call the contract at `contract_addr` with the encoded message `msg`.
    Execute { contract_addr: String, msg: Vec<u8>, funds: Vec<Coin> },
    /// Send native coins to `to_address`.
    Send { to_address: String, amount: Vec<Coin> },
}

/// What a [`CosmosMsg`] stands for.
pub enum CosmosMsgView {
    Execute { contract_addr: Seq<char>, msg: Seq<u8>, funds: Seq<CoinView> },
    Send { to_address: Seq<char>, amount: Seq<CoinView> },
}

impl View for CosmosMsg {
    type V = CosmosMsgView;

    open spec fn view(&self) -> CosmosMsgView {
        match *self {
            CosmosMsg::Execute { contract_addr, msg, funds } => CosmosMsgView::Execute {
                contract_addr: contract_addr@,
                msg: msg@,
                funds: coins_view(funds@),
            },
            CosmosMsg::Send { to_address, amount } => CosmosMsgView::Send {
                to_address: to_address@,
                amount: coins_view(amount@),
            },
        }
    }
}

/// The outcome of a transition that was applied.
#[derive(Debug, PartialEq, Eq)]
pub struct Response {
    pub messages: Vec<CosmosMsg>,
    pub attributes: Vec<Attribute>,
}

/// What a [`Response`] stands for.
pub struct ResponseView {
    pub messages: Seq<CosmosMsgView>,
    pub attributes: Seq<(Seq<char>, Seq<char>)>,
}

impl View for Response {
    type V = ResponseView;

    open spec fn view(&self) -> ResponseView {
        ResponseView {
            messages: self.messages@.map_values(|m: CosmosMsg| m@),
            attributes: self.attributes@.map_values(|a: Attribute| a@),
        }
    }
}

impl Response {
    /// A response with no message and no attribute.
    pub fn new() -> (r: Response)
        ensures
            r@.messages == Seq::<CosmosMsgView>::empty(),
            r@.attributes == Seq::<(Seq<char>, Seq<char>)>::empty(),
    {
        Response { messages: Vec::new(), attributes: Vec::new() }
    }

    /// Appends the attribute `key = value`.
    pub fn add_attribute(self, key: String, value: String) -> (r: Response)
        ensures
            r@.messages == self@.messages,
            r@.attributes == self@.attributes.push((key@, value@)),
    {
        let mut r = self;
        r.attributes.push(Attribute { key, value });
        r
    }

    /// Appends the outbound message `msg`.
    pub fn add_message(self, msg: CosmosMsg) -> (r: Response)
        ensures
            r@.messages == self@.messages.push(msg@),
            r@.attributes == self@.attributes,
    {
        let mut r = self;
        r.messages.push(msg);
        r
    }
}

} // verus!
