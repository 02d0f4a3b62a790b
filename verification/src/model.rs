//! The ledger as mathematics: each transition as a function from the ledger
//! before it to the ledger after it and the response, or to a refusal.

use crate::amount::decimal;
use crate::error::{ContractError, ErrorKind};
use crate::msg::{CommandView, InfoResponseView, MessageInfoView};
use crate::response::{CosmosMsgView, Response, ResponseView};
use crate::state::{CoinView, State, StateView};
use crate::transfer::cw20_transfer_json;
use vstd::prelude::*;

verus! {

/// The payment received: the sum of the amounts of those coins in `funds`
/// whose denomination is `denom`. Coins of any other denomination count for
/// nothing.
pub open spec fn received(funds: Seq<CoinView>, denom: Seq<char>) -> nat
    decreases funds.len(),
{
    if funds.len() == 0 {
        0
    } else if funds.last().denom == denom {
        received(funds.drop_last(), denom) + funds.last().amount
    } else {
        received(funds.drop_last(), denom)
    }
}

/// The credited tokens that a payment of `paid` buys at `price` a token: the
/// quotient rounded down. The remainder buys nothing.
pub open spec fn purchased(paid: nat, price: nat) -> nat
    recommends
        price > 0,
{
    paid / price
}

/// The ledger with another balance and everything else as it was.
pub open spec fn with_balance(s: StateView, balance: nat) -> StateView {
    StateView { balance, ..s }
}

/// The ledger after `amount` credited tokens have arrived.
pub open spec fn deposit_step(s: StateView, amount: nat) -> StateView {
    with_balance(s, s.balance + amount)
}

/// The call of the credited-token contract that carries the encoded transfer
/// `payload`.
pub open spec fn cw20_call(s: StateView, payload: Seq<u8>) -> CosmosMsgView {
    CosmosMsgView::Execute { contract_addr: s.cw20address, msg: payload, funds: Seq::empty() }
}

/// What a purchase of `amount` tokens reports: the amount, the token
/// transfer to the buyer, and all attached funds passed on to the owner.
pub open spec fn buy_response(
    s: StateView,
    info: MessageInfoView,
    amount: nat,
    payload: Seq<u8>,
) -> ResponseView {
    ResponseView {
        messages: seq![
            cw20_call(s, payload),
            CosmosMsgView::Send { to_address: s.owner, amount: info.funds },
        ],
        attributes: seq![("action"@, "buy"@), ("amount"@, decimal(amount))],
    }
}

/// A purchase of `amount` tokens whose transfer is encoded as `payload`:
/// refused when the ledger holds fewer than `amount`, else the balance goes
/// down by `amount`.
pub open spec fn settle_step(
    s: StateView,
    info: MessageInfoView,
    amount: nat,
    payload: Seq<u8>,
) -> Result<(StateView, ResponseView), ErrorKind> {
    if amount > s.balance {
        Err(ErrorKind::Subtraction)
    } else {
        Ok((with_balance(s, (s.balance - amount) as nat), buy_response(s, info, amount, payload)))
    }
}

/// A purchase paid with the funds of `info`.
pub open spec fn buy_step(s: StateView, info: MessageInfoView) -> Result<
    (StateView, ResponseView),
    ErrorKind,
> {
    let paid = received(info.funds, s.denom);
    if paid == 0 {
        Err(ErrorKind::IncorrectFunds)
    } else if s.price == 0 {
        Err(ErrorKind::DivideByZero)
    } else {
        match cw20_transfer_json(info.sender, purchased(paid, s.price)) {
            None => Err(ErrorKind::Std),
            Some(payload) => settle_step(s, info, purchased(paid, s.price), payload),
        }
    }
}

/// What a withdrawal reports: the balance before it, and its transfer to the
/// owner.
pub open spec fn withdraw_response(s: StateView, payload: Seq<u8>) -> ResponseView {
    ResponseView {
        messages: seq![cw20_call(s, payload)],
        attributes: seq![("action"@, "withdraw_all"@), ("amount"@, decimal(s.balance))],
    }
}

/// A withdrawal of the whole balance asked for by `sender`: refused unless
/// `sender` is the owner, else the balance goes to zero.
pub open spec fn withdraw_step(s: StateView, sender: Seq<char>) -> Result<
    (StateView, ResponseView),
    ErrorKind,
> {
    if sender != s.owner {
        Err(ErrorKind::Unauthorized)
    } else {
        match cw20_transfer_json(s.owner, s.balance) {
            None => Err(ErrorKind::Std),
            Some(payload) => Ok((with_balance(s, 0), withdraw_response(s, payload))),
        }
    }
}

/// The ledger that `sender` creates, with nothing in it yet.
pub open spec fn initial_state(
    sender: Seq<char>,
    price: nat,
    denom: Seq<char>,
    cw20address: Seq<char>,
) -> StateView {
    StateView { owner: sender, price, denom, balance: 0, cw20address }
}

/// What creating the ledger reports: who created it.
pub open spec fn instantiate_response(sender: Seq<char>) -> ResponseView {
    ResponseView {
        messages: Seq::empty(),
        attributes: seq![("method"@, "instantiate"@), ("owner"@, sender)],
    }
}

/// The response that reports nothing.
pub open spec fn empty_response() -> ResponseView {
    ResponseView { messages: Seq::empty(), attributes: Seq::empty() }
}

/// What a command does to the ledger.
pub open spec fn execute_step(s: StateView, info: MessageInfoView, command: CommandView) -> Result<
    (StateView, ResponseView),
    ErrorKind,
> {
    match command {
        CommandView::Buy => buy_step(s, info),
        CommandView::Receive { amount } => Ok((deposit_step(s, amount), empty_response())),
        CommandView::WithdrawAll => withdraw_step(s, info.sender),
    }
}

/// Whether the amounts that a command adds up stay within 128 bits: the
/// payment of a purchase, the balance after a deposit.
pub open spec fn within_limits(s: StateView, info: MessageInfoView, command: CommandView) -> bool {
    match command {
        CommandView::Buy => received(info.funds, s.denom) <= u128::MAX,
        CommandView::Receive { amount } => s.balance + amount <= u128::MAX,
        CommandView::WithdrawAll => true,
    }
}

/// What the ledger answers when asked about itself.
pub open spec fn info_of(s: StateView) -> InfoResponseView {
    InfoResponseView {
        owner: s.owner,
        cw20address: s.cw20address,
        price: CoinView { denom: s.denom, amount: s.price },
        balance: s.balance,
    }
}

/// Whether a call that turned the ledger `before` into `after` and returned
/// `r` carried out `step`: applied, with that next ledger and that response, or
/// refused for that reason, with the ledger untouched.
pub open spec fn carried_out(
    step: Result<(StateView, ResponseView), ErrorKind>,
    before: State,
    after: State,
    r: Result<Response, ContractError>,
) -> bool {
    match step {
        Ok((next, response)) => r matches Ok(resp) && resp@ == response && after@ == next,
        Err(kind) => r matches Err(e) && e@ == kind && after == before,
    }
}

/// A payment prefix never exceeds the whole payment.
pub proof fn lemma_received_prefix(funds: Seq<CoinView>, denom: Seq<char>, n: int)
    requires
        0 <= n <= funds.len(),
    ensures
        received(funds.take(n), denom) <= received(funds, denom),
    decreases funds.len() - n,
{
    if n == funds.len() {
        assert(funds.take(n) =~= funds);
    } else {
        lemma_received_prefix(funds.drop_last(), denom, n);
        assert(funds.drop_last().take(n) =~= funds.take(n));
    }
}

} // verus!
