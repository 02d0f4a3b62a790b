//! The commands and queries the ledger answers, and who sent them with what.

use crate::state::{coins_view, Coin, CoinView};
use vstd::prelude::*;

verus! {

/// What the ledger is created with.
#[derive(Debug, PartialEq, Eq)]
pub struct InstantiateMsg {
    pub price: u128,
    pub denom: String,
    pub cw20address: String,
}

/// The notice that credited tokens were moved into the ledger's custody.
#[derive(Debug, PartialEq, Eq)]
pub struct Cw20ReceiveMsg {
    pub sender: String,
    pub amount: u128,
    /// Carried along, never read.
    pub msg: Vec<u8>,
}

/// The commands that change the ledger.
#[derive(Debug, PartialEq, Eq)]
pub enum ExecuteMsg {
    /// Buy credited tokens with the funds attached to the call.
    Buy {},
    /// Credited tokens have arrived.
    Receive(Cw20ReceiveMsg),
    /// Hand the whole balance back to the owner.
    WithdrawAll {},
}

/// What an [`ExecuteMsg`] stands for.
pub enum CommandView {
    Buy,
    Receive { amount: nat },
    WithdrawAll,
}

impl View for ExecuteMsg {
    type V = CommandView;

    open spec fn view(&self) -> CommandView {
        match *self {
            ExecuteMsg::Buy {  } => CommandView::Buy,
            ExecuteMsg::Receive(msg) => CommandView::Receive { amount: msg.amount as nat },
            ExecuteMsg::WithdrawAll {  } => CommandView::WithdrawAll,
        }
    }
}

/// The queries that read the ledger.
#[derive(Debug, PartialEq, Eq)]
pub enum QueryMsg {
    GetInfo {},
}

/// The answer to [`QueryMsg::GetInfo`].
#[derive(Debug, PartialEq, Eq)]
pub struct InfoResponse {
    pub owner: String,
    pub cw20address: String,
    pub price: Coin,
    pub balance: u128,
}

/// What an [`InfoResponse`] stands for.
pub struct InfoResponseView {
    pub owner: Seq<char>,
    pub cw20address: Seq<char>,
    pub price: CoinView,
    pub balance: nat,
}

impl View for InfoResponse {
    type V = InfoResponseView;

    open spec fn view(&self) -> InfoResponseView {
        InfoResponseView {
            owner: self.owner@,
            cw20address: self.cw20address@,
            price: self.price@,
            balance: self.balance as nat,
        }
    }
}

/// Who made a call and which funds came with it.
#[derive(Debug, PartialEq, Eq)]
pub struct MessageInfo {
    pub sender: String,
    pub funds: Vec<Coin>,
}

/// What a [`MessageInfo`] stands for.
pub struct MessageInfoView {
    pub sender: Seq<char>,
    pub funds: Seq<CoinView>,
}

impl View for MessageInfo {
    type V = MessageInfoView;

    open spec fn view(&self) -> MessageInfoView {
        MessageInfoView { sender: self.sender@, funds: coins_view(self.funds@) }
    }
}

} // verus!
