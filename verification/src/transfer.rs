//! The message that asks the credited-token contract to move tokens.

use cosmwasm_std::{to_json_binary, StdError, Uint128};
use cw20::Cw20ExecuteMsg;
use vstd::prelude::*;

verus! {

/// The JSON bytes of a `cw20::Cw20ExecuteMsg::Transfer` to `recipient` over
/// `amount`, or `None` where the encoder refuses it.
pub uninterp spec fn cw20_transfer_json(recipient: Seq<char>, amount: nat) -> Option<Seq<u8>>;

/// `cosmwasm_std::to_json_binary` on a `Cw20ExecuteMsg::Transfer` built from
/// the two arguments. The encoding depends on the arguments alone; it is not
/// spelled out here, only named.
#[verifier::external_body]
pub(crate) fn encode_cw20_transfer(recipient: String, amount: u128) -> (r: Result<Vec<u8>, StdError>)
    ensures
        r matches Ok(bytes) ==> cw20_transfer_json(recipient@, amount as nat) == Some(bytes@),
        r is Err ==> cw20_transfer_json(recipient@, amount as nat) is None,
{
    let msg = Cw20ExecuteMsg::Transfer { recipient, amount: Uint128::new(amount) };
    match to_json_binary(&msg) {
        Ok(binary) => Ok(binary.0),
        Err(e) => Err(e),
    }
}

} // verus!
