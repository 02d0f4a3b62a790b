//! The ledger record and the coins it is priced and paid in.

use vstd::prelude::*;

verus! {

/// An amount of one native denomination.
#[derive(Debug, PartialEq, Eq)]
pub struct Coin {
    pub denom: String,
    pub amount: u128,
}

/// What a [`Coin`] stands for: a denomination and a natural number of units.
pub struct CoinView {
    pub denom: Seq<char>,
    pub amount: nat,
}

impl View for Coin {
    type V = CoinView;

    open spec fn view(&self) -> CoinView {
        CoinView { denom: self.denom@, amount: self.amount as nat }
    }
}

impl Clone for Coin {
    fn clone(&self) -> (res: Coin)
        ensures
            res@ == self@,
    {
        Coin { denom: self.denom.clone(), amount: self.amount }
    }
}

/// The views of a list of coins, in order.
pub open spec fn coins_view(coins: Seq<Coin>) -> Seq<CoinView> {
    coins.map_values(|c: Coin| c@)
}

/// The single record of the ledger.
#[derive(Debug, PartialEq, Eq)]
pub struct State {
    /// The account that created the ledger; the only one that may withdraw.
    pub owner: String,
    /// Units of `price.denom` asked for one credited token.
    pub price: Coin,
    /// Credited tokens held for sale.
    pub balance: u128,
    /// The contract that keeps the credited token.
    pub cw20address: String,
}

/// What a [`State`] stands for.
pub struct StateView {
    pub owner: Seq<char>,
    pub price: nat,
    pub denom: Seq<char>,
    pub balance: nat,
    pub cw20address: Seq<char>,
}

impl View for State {
    type V = StateView;

    open spec fn view(&self) -> StateView {
        StateView {
            owner: self.owner@,
            price: self.price.amount as nat,
            denom: self.price.denom@,
            balance: self.balance as nat,
            cw20address: self.cw20address@,
        }
    }
}

impl Clone for State {
    fn clone(&self) -> (res: State)
        ensures
            res@ == self@,
    {
        State {
            owner: self.owner.clone(),
            price: self.price.clone(),
            balance: self.balance,
            cw20address: self.cw20address.clone(),
        }
    }
}

} // verus!
