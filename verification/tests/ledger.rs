use token_exchange::contract::{
    accepts, execute, execute_buy, execute_receive, execute_withdraw_all, instantiate, pay_out,
    payment_fits, query_info, received_payment, settle_purchase,
};
use token_exchange::error::ContractError;
use token_exchange::msg::{Cw20ReceiveMsg, ExecuteMsg, InstantiateMsg, MessageInfo};
use token_exchange::response::{Attribute, CosmosMsg, Response};
use token_exchange::state::{Coin, State};

fn coin(amount: u128, denom: &str) -> Coin {
    Coin { denom: denom.to_string(), amount }
}

fn sent_by(sender: &str, funds: Vec<Coin>) -> MessageInfo {
    MessageInfo { sender: sender.to_string(), funds }
}

fn attribute(key: &str, value: &str) -> Attribute {
    Attribute { key: key.to_string(), value: value.to_string() }
}

fn ledger(price: u128, balance: u128) -> State {
    let (mut state, _) = instantiate(
        sent_by("creator", vec![]),
        InstantiateMsg {
            price,
            denom: "token".to_string(),
            cw20address: "cw20addr".to_string(),
        },
    );
    if balance > 0 {
        deposit(&mut state, balance);
    }
    state
}

fn deposit(state: &mut State, amount: u128) -> Response {
    execute_receive(
        state,
        Cw20ReceiveMsg { sender: "anyone".to_string(), amount, msg: vec![] },
    )
    .unwrap()
}

fn buy(state: &mut State, buyer: &str, funds: Vec<Coin>) -> Result<Response, ContractError> {
    execute_buy(state, sent_by(buyer, funds), 0, String::new())
}

fn transfer_json(recipient: &str, amount: &str) -> Vec<u8> {
    format!("{{\"transfer\":{{\"recipient\":\"{}\",\"amount\":\"{}\"}}}}", recipient, amount)
        .into_bytes()
}

#[test]
fn instantiate_makes_an_empty_ledger_owned_by_the_sender() {
    let (state, response) = instantiate(
        sent_by("creator", vec![coin(2, "token")]),
        InstantiateMsg {
            price: 7,
            denom: "token".to_string(),
            cw20address: "cw20addr".to_string(),
        },
    );
    assert_eq!(
        state,
        State {
            owner: "creator".to_string(),
            price: coin(7, "token"),
            balance: 0,
            cw20address: "cw20addr".to_string(),
        }
    );
    assert!(response.messages.is_empty());
    assert_eq!(
        response.attributes,
        vec![attribute("method", "instantiate"), attribute("owner", "creator")]
    );
}

#[test]
fn instantiate_accepts_a_zero_price() {
    let state = ledger(0, 0);
    assert_eq!(state.price.amount, 0);
    assert_eq!(state.balance, 0);
}

#[test]
fn query_info_reports_every_field() {
    let state = ledger(7, 10);
    let info = query_info(&state);
    assert_eq!(info.owner, "creator");
    assert_eq!(info.cw20address, "cw20addr");
    assert_eq!(info.price, coin(7, "token"));
    assert_eq!(info.balance, 10);
    assert_eq!(state.balance, 10);
}

#[test]
fn deposit_adds_to_the_balance_and_reports_nothing() {
    let mut state = ledger(7, 0);
    let response = deposit(&mut state, 10);
    assert_eq!(state.balance, 10);
    assert!(response.messages.is_empty());
    assert!(response.attributes.is_empty());
    deposit(&mut state, 5);
    assert_eq!(state.balance, 15);
}

#[test]
fn deposit_of_zero_changes_nothing() {
    let mut state = ledger(7, 10);
    deposit(&mut state, 0);
    assert_eq!(state.balance, 10);
}

#[test]
fn deposit_may_fill_the_balance_to_the_limit() {
    let mut state = ledger(7, 1);
    deposit(&mut state, u128::MAX - 1);
    assert_eq!(state.balance, u128::MAX);
}

#[test]
fn purchase_of_three_tokens_for_twenty_one() {
    let mut state = ledger(7, 0);
    deposit(&mut state, 10);
    assert_eq!(state.balance, 10);

    let response = buy(&mut state, "buyer", vec![coin(21, "token")]).unwrap();
    assert_eq!(state.balance, 7);
    assert_eq!(
        response.attributes,
        vec![attribute("action", "buy"), attribute("amount", "3")]
    );
    assert_eq!(
        response.messages,
        vec![
            CosmosMsg::Execute {
                contract_addr: "cw20addr".to_string(),
                msg: transfer_json("buyer", "3"),
                funds: vec![],
            },
            CosmosMsg::Send { to_address: "creator".to_string(), amount: vec![coin(21, "token")] },
        ]
    );
}

#[test]
fn overpayment_buys_the_rounded_down_quotient() {
    let mut state = ledger(7, 7);
    let response = buy(&mut state, "buyer", vec![coin(25, "token")]).unwrap();
    assert_eq!(response.attributes[1], attribute("amount", "3"));
    assert_eq!(state.balance, 4);
}

#[test]
fn payment_below_the_price_buys_nothing_and_is_passed_on() {
    let mut state = ledger(7, 10);
    let response = buy(&mut state, "buyer", vec![coin(6, "token")]).unwrap();
    assert_eq!(state.balance, 10);
    assert_eq!(response.attributes[1], attribute("amount", "0"));
    assert_eq!(
        response.messages[1],
        CosmosMsg::Send { to_address: "creator".to_string(), amount: vec![coin(6, "token")] }
    );
}

#[test]
fn purchase_may_take_the_whole_balance() {
    let mut state = ledger(7, 3);
    buy(&mut state, "buyer", vec![coin(21, "token")]).unwrap();
    assert_eq!(state.balance, 0);
}

#[test]
fn purchase_beyond_the_balance_is_refused() {
    let mut state = ledger(7, 2);
    let before = state.clone();
    let refused = buy(&mut state, "buyer", vec![coin(21, "token")]);
    assert_eq!(refused, Err(ContractError::SubtractionError));
    assert_eq!(state, before);
}

#[test]
fn purchase_at_zero_price_is_refused() {
    let mut state = ledger(0, 10);
    let refused = buy(&mut state, "buyer", vec![coin(21, "token")]);
    assert_eq!(refused, Err(ContractError::DivideByZeroError));
    assert_eq!(state.balance, 10);

    let mut empty = ledger(0, 0);
    let refused = buy(&mut empty, "buyer", vec![coin(1, "token")]);
    assert_eq!(refused, Err(ContractError::DivideByZeroError));
    assert_eq!(empty.balance, 0);
}

#[test]
fn purchase_without_funds_is_refused() {
    let mut state = ledger(7, 10);
    assert_eq!(buy(&mut state, "buyer", vec![]), Err(ContractError::IncorrectFunds));
    assert_eq!(state.balance, 10);
}

#[test]
fn purchase_with_other_denominations_only_is_refused() {
    let mut state = ledger(7, 10);
    let refused = buy(&mut state, "buyer", vec![coin(1000, "earth"), coin(21, "tokens")]);
    assert_eq!(refused, Err(ContractError::IncorrectFunds));
    assert_eq!(state.balance, 10);
}

#[test]
fn purchase_with_a_zero_matching_amount_is_refused() {
    let mut state = ledger(7, 10);
    let refused = buy(&mut state, "buyer", vec![coin(0, "token"), coin(50, "earth")]);
    assert_eq!(refused, Err(ContractError::IncorrectFunds));
    assert_eq!(state.balance, 10);
}

#[test]
fn missing_funds_are_reported_before_a_zero_price() {
    let mut state = ledger(0, 10);
    assert_eq!(buy(&mut state, "buyer", vec![coin(5, "earth")]), Err(ContractError::IncorrectFunds));
}

#[test]
fn a_zero_price_is_reported_before_a_short_balance() {
    let mut state = ledger(0, 0);
    assert_eq!(
        buy(&mut state, "buyer", vec![coin(5, "token")]),
        Err(ContractError::DivideByZeroError)
    );
}

#[test]
fn other_denominations_are_ignored_but_passed_on() {
    let mut state = ledger(7, 10);
    let funds = vec![coin(1000, "earth"), coin(14, "token"), coin(3, "moon"), coin(7, "token")];
    let response = buy(&mut state, "buyer", funds.clone()).unwrap();
    assert_eq!(response.attributes[1], attribute("amount", "3"));
    assert_eq!(state.balance, 7);
    assert_eq!(
        response.messages[1],
        CosmosMsg::Send { to_address: "creator".to_string(), amount: funds }
    );
}

#[test]
fn expected_price_and_denomination_are_not_compared() {
    let mut state = ledger(7, 10);
    let response = execute_buy(
        &mut state,
        sent_by("buyer", vec![coin(21, "token")]),
        1,
        "earth".to_string(),
    )
    .unwrap();
    assert_eq!(response.attributes[1], attribute("amount", "3"));
    assert_eq!(state.balance, 7);
}

#[test]
fn received_payment_sums_the_matching_coins() {
    let funds = vec![coin(5, "token"), coin(9, "earth"), coin(16, "token"), coin(0, "token")];
    assert_eq!(received_payment(&funds, &"token".to_string()), 21);
    assert_eq!(received_payment(&funds, &"earth".to_string()), 9);
    assert_eq!(received_payment(&funds, &"moon".to_string()), 0);
    assert_eq!(received_payment(&vec![], &"token".to_string()), 0);
}

#[test]
fn payment_fits_tells_sums_beyond_128_bits() {
    let denom = "token".to_string();
    assert!(payment_fits(&vec![coin(u128::MAX - 1, "token"), coin(1, "token")], &denom));
    assert!(!payment_fits(&vec![coin(u128::MAX, "token"), coin(1, "token")], &denom));
    assert!(payment_fits(&vec![coin(u128::MAX, "token"), coin(u128::MAX, "earth")], &denom));
    assert!(!payment_fits(
        &vec![coin(u128::MAX, "token"), coin(1, "token"), coin(0, "token")],
        &denom
    ));
    assert!(payment_fits(&vec![], &denom));
}

#[test]
fn accepts_tells_commands_beyond_128_bits() {
    let state = ledger(7, 10);
    let nothing = sent_by("anyone", vec![]);
    let receive = |amount: u128| {
        ExecuteMsg::Receive(Cw20ReceiveMsg { sender: "anyone".to_string(), amount, msg: vec![] })
    };
    assert!(accepts(&state, &nothing, &receive(u128::MAX - 10)));
    assert!(!accepts(&state, &nothing, &receive(u128::MAX - 9)));
    assert!(accepts(&state, &nothing, &ExecuteMsg::WithdrawAll {}));
    assert!(accepts(&state, &nothing, &ExecuteMsg::Buy {}));
    let too_much = sent_by("buyer", vec![coin(u128::MAX, "token"), coin(1, "token")]);
    assert!(!accepts(&state, &too_much, &ExecuteMsg::Buy {}));
    assert!(accepts(&state, &too_much, &ExecuteMsg::WithdrawAll {}));
}

#[test]
fn the_largest_payment_is_divided_exactly() {
    let mut state = ledger(3, u128::MAX);
    let response = buy(&mut state, "buyer", vec![coin(u128::MAX, "token")]).unwrap();
    // u128::MAX is divisible by 3.
    assert_eq!(
        response.attributes[1],
        attribute("amount", "113427455640312821154458202477256070485")
    );
    assert_eq!(state.balance, u128::MAX - u128::MAX / 3);
}

#[test]
fn amounts_are_reported_in_decimal() {
    let mut state = ledger(1, 1_000_000);
    let response = buy(&mut state, "buyer", vec![coin(120_034, "token")]).unwrap();
    assert_eq!(response.attributes[1], attribute("amount", "120034"));
    assert_eq!(
        response.messages[0],
        CosmosMsg::Execute {
            contract_addr: "cw20addr".to_string(),
            msg: transfer_json("buyer", "120034"),
            funds: vec![],
        }
    );
}

#[test]
fn settle_purchase_carries_the_given_payload() {
    let mut state = ledger(7, 10);
    let info = sent_by("buyer", vec![coin(21, "token"), coin(1, "earth")]);
    let response = settle_purchase(&mut state, info, 4, vec![1, 2, 3]).unwrap();
    assert_eq!(state.balance, 6);
    assert_eq!(
        response,
        Response {
            messages: vec![
                CosmosMsg::Execute {
                    contract_addr: "cw20addr".to_string(),
                    msg: vec![1, 2, 3],
                    funds: vec![],
                },
                CosmosMsg::Send {
                    to_address: "creator".to_string(),
                    amount: vec![coin(21, "token"), coin(1, "earth")],
                },
            ],
            attributes: vec![attribute("action", "buy"), attribute("amount", "4")],
        }
    );
}

#[test]
fn settle_purchase_refuses_more_than_the_balance() {
    let mut state = ledger(7, 10);
    let before = state.clone();
    let refused = settle_purchase(&mut state, sent_by("buyer", vec![]), 11, vec![]);
    assert_eq!(refused, Err(ContractError::SubtractionError));
    assert_eq!(state, before);
    assert!(settle_purchase(&mut state, sent_by("buyer", vec![]), 10, vec![]).is_ok());
    assert_eq!(state.balance, 0);
}

#[test]
fn withdrawal_by_a_stranger_is_refused() {
    let mut state = ledger(7, 10);
    let before = state.clone();
    let refused = execute_withdraw_all(&mut state, "imposter".to_string());
    assert_eq!(refused, Err(ContractError::Unauthorized));
    assert_eq!(state, before);
}

#[test]
fn withdrawal_by_the_owner_reports_the_prior_balance() {
    let mut state = ledger(7, 10);
    let response = execute_withdraw_all(&mut state, "creator".to_string()).unwrap();
    assert_eq!(state.balance, 0);
    assert_eq!(
        response,
        Response {
            messages: vec![CosmosMsg::Execute {
                contract_addr: "cw20addr".to_string(),
                msg: transfer_json("creator", "10"),
                funds: vec![],
            }],
            attributes: vec![attribute("action", "withdraw_all"), attribute("amount", "10")],
        }
    );
    assert_eq!(state.owner, "creator");
    assert_eq!(state.price, coin(7, "token"));
}

#[test]
fn withdrawal_of_an_empty_ledger_reports_zero() {
    let mut state = ledger(7, 0);
    let response = execute_withdraw_all(&mut state, "creator".to_string()).unwrap();
    assert_eq!(state.balance, 0);
    assert_eq!(response.attributes[1], attribute("amount", "0"));
}

#[test]
fn unauthorized_then_authorized_withdrawal() {
    let mut state = ledger(7, 0);
    deposit(&mut state, 12);
    let refused = execute(&mut state, sent_by("stranger", vec![]), ExecuteMsg::WithdrawAll {});
    assert_eq!(refused, Err(ContractError::Unauthorized));
    assert_eq!(state.balance, 12);
    let response =
        execute(&mut state, sent_by("creator", vec![]), ExecuteMsg::WithdrawAll {}).unwrap();
    assert_eq!(state.balance, 0);
    assert_eq!(response.attributes[1], attribute("amount", "12"));
}

#[test]
fn pay_out_carries_the_given_payload() {
    let mut state = ledger(7, 10);
    let response = pay_out(&mut state, vec![9, 8]);
    assert_eq!(state.balance, 0);
    assert_eq!(
        response.messages,
        vec![CosmosMsg::Execute {
            contract_addr: "cw20addr".to_string(),
            msg: vec![9, 8],
            funds: vec![],
        }]
    );
    assert_eq!(response.attributes[1], attribute("amount", "10"));
}

#[test]
fn balance_is_deposits_less_purchases() {
    let mut state = ledger(7, 0);
    deposit(&mut state, 10);
    buy(&mut state, "ann", vec![coin(21, "token")]).unwrap();
    deposit(&mut state, 5);
    buy(&mut state, "bob", vec![coin(13, "token"), coin(99, "earth")]).unwrap();
    assert!(buy(&mut state, "cyd", vec![coin(700, "token")]).is_err());
    buy(&mut state, "dee", vec![coin(70, "token")]).unwrap();
    // deposits 10 + 5, purchases 3 + 1 + 10
    assert_eq!(state.balance, 1);
}

#[test]
fn transfer_message_escapes_the_recipient() {
    let mut state = ledger(1, 5);
    let response = buy(&mut state, "a\"b", vec![coin(2, "token")]).unwrap();
    assert_eq!(
        response.messages[0],
        CosmosMsg::Execute {
            contract_addr: "cw20addr".to_string(),
            msg: b"{\"transfer\":{\"recipient\":\"a\\\"b\",\"amount\":\"2\"}}".to_vec(),
            funds: vec![],
        }
    );
}

#[test]
fn execute_dispatches_each_command() {
    let mut state = ledger(7, 0);
    let received = ExecuteMsg::Receive(Cw20ReceiveMsg {
        sender: "asdf".to_string(),
        amount: 10,
        msg: vec![],
    });
    let response = execute(&mut state, sent_by("anyone", vec![]), received).unwrap();
    assert_eq!(response, Response { messages: vec![], attributes: vec![] });
    assert_eq!(state.balance, 10);

    let response =
        execute(&mut state, sent_by("buyer", vec![coin(21, "token")]), ExecuteMsg::Buy {}).unwrap();
    assert_eq!(response.attributes[0], attribute("action", "buy"));
    assert_eq!(state.balance, 7);

    let response =
        execute(&mut state, sent_by("creator", vec![]), ExecuteMsg::WithdrawAll {}).unwrap();
    assert_eq!(response.attributes[0], attribute("action", "withdraw_all"));
    assert_eq!(state.balance, 0);
}
