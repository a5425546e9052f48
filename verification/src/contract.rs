//! The three entry points of the contract.

use crate::contract_execute::{leave_ensures, register_ensures};
use crate::contract_instantiate::instantiate_ensures;
use crate::contract_query::query_ensures;
use crate::error::ContractError;
use crate::msg::{ExecuteMsg, InstantiateMsg, QueryMsg, QueryResp};
use crate::response::Response;
use crate::state::State;
use cosmwasm_std::StdError;
use vstd::prelude::*;

verus! {

/// Handles a state-changing request of `sender`.
pub fn execute(state: &mut State, sender: String, msg: ExecuteMsg) -> (r: Result<
    Response,
    ContractError,
>)
    ensures
        match msg {
            ExecuteMsg::Register { member } => register_ensures(
                *old(state),
                sender,
                member,
                *final(state),
                r,
            ),
            ExecuteMsg::Leave {  } => leave_ensures(*old(state), sender, *final(state), r),
        },
{
    crate::contract_execute::execute(state, sender, msg)
}

/// Sets up an instance with the administrators that `validate` accepts.
pub fn instantiate<F: Fn(&String) -> Result<String, StdError>>(
    state: &mut State,
    validate: F,
    msg: InstantiateMsg,
) -> (r: Result<Response, ContractError>)
    requires
        forall|input: &String| validate.requires((input,)),
    ensures
        instantiate_ensures(*old(state), validate, msg, *final(state), r),
{
    crate::contract_instantiate::instantiate(state, validate, msg)
}

/// Answers a read-only request.
pub fn query(state: &State, msg: QueryMsg) -> (r: Result<QueryResp, StdError>)
    ensures
        query_ensures(*state, msg, r),
{
    crate::contract_query::query(state, msg)
}

} // verus!
