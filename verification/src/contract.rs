//! The transitions of the ledger.

use crate::amount::{uint128_add, uint128_checked_div, uint128_checked_sub, uint128_to_string};
use crate::error::ContractError;
use crate::model::{
    buy_response, buy_step, carried_out, deposit_step, empty_response, execute_step, info_of,
    initial_state, instantiate_response, lemma_received_prefix, received, settle_step,
    with_balance, withdraw_response, withdraw_step, within_limits,
};
use crate::msg::{Cw20ReceiveMsg, ExecuteMsg, InfoResponse, InstantiateMsg, MessageInfo, QueryMsg};
use crate::response::{CosmosMsg, Response};
use crate::state::{coins_view, Coin, CoinView, State};
use crate::transfer::encode_cw20_transfer;
use vstd::prelude::*;

verus! {

/// Adds up the coins of `funds` whose denomination is `denom`.
///
/// The sum is kept in 128 bits, so funds whose matching amounts add up to
/// more are not accepted.
pub fn received_payment(funds: &Vec<Coin>, denom: &String) -> (total: u128)
    requires
        received(coins_view(funds@), denom@) <= u128::MAX,
    ensures
        total == received(coins_view(funds@), denom@),
{
    let ghost all = coins_view(funds@);
    let mut total: u128 = 0;
    let mut i: usize = 0;
    while i < funds.len()
        invariant
            i <= funds.len(),
            all == coins_view(funds@),
            total == received(all.take(i as int), denom@),
            received(all, denom@) <= u128::MAX,
        decreases funds.len() - i,
    {
        proof {
            lemma_received_prefix(all, denom@, i + 1);
            assert(all.take(i + 1).drop_last() =~= all.take(i as int));
            assert(all.take(i + 1).last() == funds@[i as int]@);
        }
        if funds[i].denom == *denom {
            total = uint128_add(total, funds[i].amount);
        }
        i += 1;
    }
    proof {
        assert(all.take(i as int) =~= all);
    }
    total
}

/// Whether the coins of `funds` in `denom` add up within 128 bits, which is
/// what [`received_payment`] asks of them.
pub fn payment_fits(funds: &Vec<Coin>, denom: &String) -> (fits: bool)
    ensures
        fits == (received(coins_view(funds@), denom@) <= u128::MAX),
{
    let ghost all = coins_view(funds@);
    let mut total: u128 = 0;
    let mut i: usize = 0;
    while i < funds.len()
        invariant
            i <= funds.len(),
            all == coins_view(funds@),
            total == received(all.take(i as int), denom@),
        decreases funds.len() - i,
    {
        proof {
            lemma_received_prefix(all, denom@, i + 1);
            assert(all.take(i + 1).drop_last() =~= all.take(i as int));
            assert(all.take(i + 1).last() == funds@[i as int]@);
        }
        if funds[i].denom == *denom {
            match total.checked_add(funds[i].amount) {
                Some(sum) => {
                    total = sum;
                },
                None => {
                    return false;
                },
            }
        }
        i += 1;
    }
    proof {
        assert(all.take(i as int) =~= all);
    }
    true
}

/// Whether [`execute`] takes this command on this ledger: whether the amounts
/// it would add up stay within 128 bits.
pub fn accepts(state: &State, info: &MessageInfo, msg: &ExecuteMsg) -> (ok: bool)
    ensures
        ok == within_limits(state@, info@, msg@),
{
    match msg {
        ExecuteMsg::Buy {  } => payment_fits(&info.funds, &state.price.denom),
        ExecuteMsg::Receive(notice) => state.balance.checked_add(notice.amount).is_some(),
        ExecuteMsg::WithdrawAll {  } => true,
    }
}

/// Completes a purchase of `amount` credited tokens whose transfer to the
/// buyer is already encoded as `payload`.
///
/// Refused with `SubtractionError` exactly when the ledger holds fewer than
/// `amount` tokens. Otherwise the balance goes down by `amount`, and the
/// response carries the token transfer and passes all attached funds on to the
/// owner.
pub fn settle_purchase(
    state: &mut State,
    info: MessageInfo,
    amount: u128,
    payload: Vec<u8>,
) -> (r: Result<Response, ContractError>)
    ensures
        carried_out(
            settle_step(old(state)@, info@, amount as nat, payload@),
            *old(state),
            *final(state),
            r,
        ),
{
    let cw20_transfer = CosmosMsg::Execute {
        contract_addr: state.cw20address.clone(),
        msg: payload,
        funds: Vec::new(),
    };
    let bank_transfer = CosmosMsg::Send { to_address: state.owner.clone(), amount: info.funds };
    let updated_balance = match uint128_checked_sub(state.balance, amount) {
        Ok(difference) => difference,
        Err(_) => {
            return Err(ContractError::SubtractionError);
        },
    };
    state.balance = updated_balance;
    let response = Response::new().add_attribute("action".to_owned(), "buy".to_owned())
        .add_attribute("amount".to_owned(), uint128_to_string(amount)).add_message(
        cw20_transfer,
    ).add_message(bank_transfer);
    proof {
        let expected = buy_response(old(state)@, info@, amount as nat, payload@);
        assert(coins_view(Seq::<Coin>::empty()) =~= Seq::<CoinView>::empty());
        assert(response@.messages =~= expected.messages);
        assert(response@.attributes =~= expected.attributes);
    }
    Ok(response)
}

/// Sells credited tokens for the funds attached to the call.
///
/// The payment is what `info.funds` holds in the ledger's own denomination; it
/// buys the quotient of payment by price, rounded down. `price` and `denom`
/// are what the buyer expects to pay; they are not compared with the ledger's.
///
/// Refused, with the ledger unchanged: with `IncorrectFunds` when the payment
/// is zero; else with `DivideByZeroError` when the price is zero; else with
/// `Std` when the transfer message cannot be encoded; else with
/// `SubtractionError` when the ledger holds too few tokens.
#[allow(unused_variables)]
pub fn execute_buy(state: &mut State, info: MessageInfo, price: u128, denom: String) -> (r: Result<
    Response,
    ContractError,
>)
    requires
        received(info@.funds, old(state)@.denom) <= u128::MAX,
    ensures
        carried_out(buy_step(old(state)@, info@), *old(state), *final(state), r),
{
    let paid = received_payment(&info.funds, &state.price.denom);
    if paid == 0 {
        return Err(ContractError::IncorrectFunds);
    }
    let amount = match uint128_checked_div(paid, state.price.amount) {
        Ok(quotient) => quotient,
        Err(_) => {
            return Err(ContractError::DivideByZeroError);
        },
    };
    match encode_cw20_transfer(info.sender.clone(), amount) {
        Ok(payload) => settle_purchase(state, info, amount, payload),
        Err(e) => Err(ContractError::Std(e)),
    }
}

/// Hands the whole balance to the owner by the transfer already encoded as
/// `payload`: the balance goes to zero, and the response reports what it was.
pub fn pay_out(state: &mut State, payload: Vec<u8>) -> (response: Response)
    ensures
        response@ == withdraw_response(old(state)@, payload@),
        final(state)@ == with_balance(old(state)@, 0),
{
    let withdrawn = state.balance;
    let cw20_transfer = CosmosMsg::Execute {
        contract_addr: state.cw20address.clone(),
        msg: payload,
        funds: Vec::new(),
    };
    state.balance = 0;
    let response = Response::new().add_attribute("action".to_owned(), "withdraw_all".to_owned())
        .add_attribute("amount".to_owned(), uint128_to_string(withdrawn)).add_message(
        cw20_transfer,
    );
    proof {
        let expected = withdraw_response(old(state)@, payload@);
        assert(coins_view(Seq::<Coin>::empty()) =~= Seq::<CoinView>::empty());
        assert(response@.messages =~= expected.messages);
        assert(response@.attributes =~= expected.attributes);
    }
    response
}

/// Hands the whole balance back to the owner.
///
/// Refused, with the ledger unchanged: with `Unauthorized` when `sender` is
/// not the owner; else with `Std` when the transfer message cannot be encoded.
/// Otherwise the balance goes to zero and the response reports the balance
/// from before the call.
pub fn execute_withdraw_all(state: &mut State, sender: String) -> (r: Result<
    Response,
    ContractError,
>)
    ensures
        carried_out(withdraw_step(old(state)@, sender@), *old(state), *final(state), r),
{
    if !(state.owner == sender) {
        return Err(ContractError::Unauthorized);
    }
    match encode_cw20_transfer(state.owner.clone(), state.balance) {
        Ok(payload) => Ok(pay_out(state, payload)),
        Err(e) => Err(ContractError::Std(e)),
    }
}

/// Records that `msg.amount` credited tokens have arrived: the balance goes
/// up by that much. Anyone may report an arrival.
///
/// The balance is kept in 128 bits, so an arrival that would take it beyond is
/// not accepted.
pub fn execute_receive(state: &mut State, msg: Cw20ReceiveMsg) -> (r: Result<
    Response,
    ContractError,
>)
    requires
        old(state).balance + msg.amount <= u128::MAX,
    ensures
        r matches Ok(response) && response@ == empty_response(),
        final(state)@ == deposit_step(old(state)@, msg.amount as nat),
{
    state.balance = uint128_add(state.balance, msg.amount);
    Ok(Response::new())
}

/// Creates the ledger: owned by the sender, priced as `msg` says, and empty.
pub fn instantiate(info: MessageInfo, msg: InstantiateMsg) -> (r: (State, Response))
    ensures
        r.0@ == initial_state(info.sender@, msg.price as nat, msg.denom@, msg.cw20address@),
        r.1@ == instantiate_response(info.sender@),
{
    let state = State {
        owner: info.sender.clone(),
        price: Coin { amount: msg.price, denom: msg.denom },
        balance: 0,
        cw20address: msg.cw20address,
    };
    let response = Response::new().add_attribute("method".to_owned(), "instantiate".to_owned())
        .add_attribute("owner".to_owned(), info.sender);
    proof {
        assert(response@.attributes =~= instantiate_response(info.sender@).attributes);
    }
    (state, response)
}

/// Carries out one command on the ledger.
pub fn execute(state: &mut State, info: MessageInfo, msg: ExecuteMsg) -> (r: Result<
    Response,
    ContractError,
>)
    requires
        within_limits(old(state)@, info@, msg@),
    ensures
        carried_out(execute_step(old(state)@, info@, msg@), *old(state), *final(state), r),
{
    match msg {
        ExecuteMsg::Buy {  } => {
            let price = state.price.amount;
            let denom = state.price.denom.clone();
            execute_buy(state, info, price, denom)
        },
        ExecuteMsg::Receive(msg) => execute_receive(state, msg),
        ExecuteMsg::WithdrawAll {  } => execute_withdraw_all(state, info.sender),
    }
}

/// What the ledger holds: owner, token contract, price and balance.
pub fn query_info(state: &State) -> (r: InfoResponse)
    ensures
        r@ == info_of(state@),
{
    InfoResponse {
        owner: state.owner.clone(),
        cw20address: state.cw20address.clone(),
        price: state.price.clone(),
        balance: state.balance,
    }
}

/// Answers one query about the ledger.
pub fn query(state: &State, msg: QueryMsg) -> (r: InfoResponse)
    ensures
        r@ == info_of(state@),
{
    match msg {
        QueryMsg::GetInfo {  } => query_info(state),
    }
}

} // verus!
