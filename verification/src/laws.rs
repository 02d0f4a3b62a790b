//! What holds of the ledger whatever is done with it.

use crate::amount::decimal;
use crate::error::ErrorKind;
use crate::model::{buy_step, execute_step, initial_state, purchased, received, withdraw_step};
use crate::msg::{CommandView, MessageInfoView};
use crate::response::ResponseView;
use crate::state::{CoinView, StateView};
use crate::transfer::cw20_transfer_json;
use vstd::prelude::*;

verus! {

/// One call of the ledger: who made it with which funds, and the command.
pub struct Call {
    pub info: MessageInfoView,
    pub command: CommandView,
}

/// The ledger after `calls`, made in order, each refused call leaving it as
/// it was.
pub open spec fn after_calls(s: StateView, calls: Seq<Call>) -> StateView
    decreases calls.len(),
{
    if calls.len() == 0 {
        s
    } else {
        let before = after_calls(s, calls.drop_last());
        match execute_step(before, calls.last().info, calls.last().command) {
            Ok((next, _)) => next,
            Err(_) => before,
        }
    }
}

/// Whether every one of `calls`, made in order, is applied.
pub open spec fn all_applied(s: StateView, calls: Seq<Call>) -> bool
    decreases calls.len(),
{
    calls.len() == 0 || {
        &&& all_applied(s, calls.drop_last())
        &&& execute_step(
            after_calls(s, calls.drop_last()),
            calls.last().info,
            calls.last().command,
        ) is Ok
    }
}

/// Whether `calls` are deposits and purchases only.
pub open spec fn deposits_and_purchases(calls: Seq<Call>) -> bool {
    forall|i: int| 0 <= i < calls.len() ==> !((#[trigger] calls[i]).command is WithdrawAll)
}

/// The credited tokens that the deposits among `calls` brought in.
pub open spec fn deposited(calls: Seq<Call>) -> nat
    decreases calls.len(),
{
    if calls.len() == 0 {
        0
    } else {
        deposited(calls.drop_last()) + match calls.last().command {
            CommandView::Receive { amount } => amount,
            _ => 0,
        }
    }
}

/// The credited tokens that the purchases among `calls` pay for, at the
/// price and in the denomination of `s`.
pub open spec fn sold(s: StateView, calls: Seq<Call>) -> nat
    decreases calls.len(),
{
    if calls.len() == 0 {
        0
    } else {
        sold(s, calls.drop_last()) + match calls.last().command {
            CommandView::Buy => purchased(received(calls.last().info.funds, s.denom), s.price),
            _ => 0,
        }
    }
}

/// Balance conservation: after any deposits and purchases that were all
/// applied, the balance is what the ledger began with, plus what was
/// deposited, minus what was sold; more is never sold than was there. Owner,
/// price, denomination and token contract stay as they were.
pub proof fn balance_is_conserved(s: StateView, calls: Seq<Call>)
    requires
        deposits_and_purchases(calls),
        all_applied(s, calls),
    ensures
        sold(s, calls) <= s.balance + deposited(calls),
        after_calls(s, calls).balance == s.balance + deposited(calls) - sold(s, calls),
        after_calls(s, calls) == (StateView { balance: after_calls(s, calls).balance, ..s }),
    decreases calls.len(),
{
    if calls.len() > 0 {
        let earlier = calls.drop_last();
        assert(deposits_and_purchases(earlier)) by {
            assert forall|i: int| 0 <= i < earlier.len() implies !((
            #[trigger] earlier[i]).command is WithdrawAll) by {
                assert(earlier[i] == calls[i]);
            }
        }
        balance_is_conserved(s, earlier);
        assert(!(calls[calls.len() - 1].command is WithdrawAll));
    }
}

/// Balance conservation from creation: a ledger starts empty, so after any
/// deposits and purchases that were all applied its balance is the deposits
/// minus the sales.
pub proof fn balance_is_deposits_less_sales(
    sender: Seq<char>,
    price: nat,
    denom: Seq<char>,
    cw20address: Seq<char>,
    calls: Seq<Call>,
)
    requires
        deposits_and_purchases(calls),
        all_applied(initial_state(sender, price, denom, cw20address), calls),
    ensures
        ({
            let s = initial_state(sender, price, denom, cw20address);
            after_calls(s, calls).balance == deposited(calls) - sold(s, calls)
        }),
{
    balance_is_conserved(initial_state(sender, price, denom, cw20address), calls);
}

/// Division policy: at a price above zero a payment buys the largest number
/// of tokens that it covers in full, and what is left over buys nothing.
pub proof fn purchase_rounds_down(paid: nat, price: nat)
    requires
        price > 0,
    ensures
        purchased(paid, price) * price <= paid < (purchased(paid, price) + 1) * price,
{
    assert(paid / price * price <= paid < (paid / price + 1) * price) by (nonlinear_arith)
        requires
            price > 0,
    ;
}

/// Division policy: a purchase that is applied takes exactly the rounded-down
/// quotient of payment by price off the balance and reports that amount.
pub proof fn purchase_takes_quotient(s: StateView, info: MessageInfoView)
    requires
        buy_step(s, info) is Ok,
    ensures
        s.price > 0,
        purchased(received(info.funds, s.denom), s.price) <= s.balance,
        buy_step(s, info)->Ok_0.0.balance == s.balance - purchased(
            received(info.funds, s.denom),
            s.price,
        ),
        buy_step(s, info)->Ok_0.1.attributes[1] == ("amount"@, decimal(purchased(
            received(info.funds, s.denom), s.price))),
{
}

/// Zero-price guard: while the price is zero, a purchase with any payment in
/// the ledger's denomination is refused as a division by zero.
pub proof fn zero_price_refuses_purchase(s: StateView, info: MessageInfoView)
    requires
        s.price == 0,
        received(info.funds, s.denom) != 0,
    ensures
        buy_step(s, info) == Err::<(StateView, ResponseView), ErrorKind>(
            ErrorKind::DivideByZero,
        ),
{
}

/// Authorization: a withdrawal asked for by anyone but the owner is refused
/// as unauthorized. One asked for by the owner is refused only where the
/// transfer message cannot be encoded; applied, it empties the ledger and
/// reports the balance from before.
pub proof fn withdrawal_is_the_owners(s: StateView, sender: Seq<char>)
    ensures
        sender != s.owner ==> withdraw_step(s, sender) == Err::<
            (StateView, ResponseView),
            ErrorKind,
        >(ErrorKind::Unauthorized),
        sender == s.owner && cw20_transfer_json(s.owner, s.balance) is Some ==> {
            &&& withdraw_step(s, sender) matches Ok((next, response))
            &&& next.balance == 0
            &&& response.attributes[1] == ("amount"@, decimal(s.balance))
        },
        withdraw_step(s, sender) is Err ==> sender != s.owner || cw20_transfer_json(
            s.owner,
            s.balance,
        ) is None,
{
}

/// Funds filtering: coins of another denomination add nothing to the payment.
pub proof fn other_denominations_are_ignored(funds: Seq<CoinView>, denom: Seq<char>)
    ensures
        received(funds, denom) == received(funds.filter(|c: CoinView| c.denom == denom), denom),
    decreases funds.len(),
{
    reveal(Seq::filter);
    let matching = |c: CoinView| c.denom == denom;
    if funds.len() > 0 {
        other_denominations_are_ignored(funds.drop_last(), denom);
        if matching(funds.last()) {
            let kept = funds.drop_last().filter(matching).push(funds.last());
            assert(funds.filter(matching) == kept);
            assert(kept.drop_last() =~= funds.drop_last().filter(matching));
            assert(kept.last() == funds.last());
        }
    }
}

/// Funds filtering: funds that hold nothing in the ledger's denomination pay
/// nothing, and the purchase is refused for incorrect funds.
pub proof fn unmatched_funds_are_refused(s: StateView, info: MessageInfoView)
    requires
        forall|i: int| 0 <= i < info.funds.len() ==> (#[trigger] info.funds[i]).denom != s.denom,
    ensures
        received(info.funds, s.denom) == 0,
        buy_step(s, info) == Err::<(StateView, ResponseView), ErrorKind>(
            ErrorKind::IncorrectFunds,
        ),
    decreases info.funds.len(),
{
    if info.funds.len() > 0 {
        let rest = MessageInfoView { funds: info.funds.drop_last(), ..info };
        assert forall|i: int| 0 <= i < rest.funds.len() implies (#[trigger] rest.funds[i]).denom
            != s.denom by {
            assert(rest.funds[i] == info.funds[i]);
        }
        unmatched_funds_are_refused(s, rest);
        assert(info.funds.last() == info.funds[info.funds.len() - 1]);
    }
}

} // verus!
