//! Initialization: the one writer of the administrator set.
//!
//! The addresses come as the caller wrote them. Whether one is well formed is
//! for the host to say, so the handler takes the host's validator as a function
//! and stores what it hands back.

use crate::constants::{ATTR_ACTION, ATTR_ACTION_INSTANTIATE, ERR_REQUIRED_ADMIN_ON_INIT};
use crate::error::{ContractError, ContractErrorView};
use crate::msg::InstantiateMsg;
use crate::response::{action_attributes, Response};
use crate::state::State;
use cosmwasm_std::StdError;
use vstd::prelude::*;

verus! {

/// Whether the validator may answer `input` with the address `address`.
pub open spec fn accepts_as<F: Fn(&String) -> Result<String, StdError>>(
    validate: F,
    input: String,
    address: String,
) -> bool {
    validate.ensures((&input,), Ok::<String, StdError>(address))
}

/// Whether the validator may answer `input` with the error `e`.
pub open spec fn rejects_with<F: Fn(&String) -> Result<String, StdError>>(
    validate: F,
    input: String,
    e: StdError,
) -> bool {
    validate.ensures((&input,), Err::<String, StdError>(e))
}

/// Whether `addresses` holds, entry by entry, an answer of the validator to
/// the entry of `inputs` at the same place.
pub open spec fn all_accepted<F: Fn(&String) -> Result<String, StdError>>(
    validate: F,
    inputs: Seq<String>,
    addresses: Seq<String>,
) -> bool {
    &&& addresses.len() == inputs.len()
    &&& forall|i: int|
        0 <= i < inputs.len() ==> accepts_as(validate, #[trigger] inputs[i], addresses[i])
}

/// Whether `e` is the validator's answer to some entry of `inputs` before
/// which it accepted every entry.
pub open spec fn first_rejection<F: Fn(&String) -> Result<String, StdError>>(
    validate: F,
    inputs: Seq<String>,
    e: StdError,
) -> bool {
    exists|i: int|
        0 <= i < inputs.len() && rejects_with(validate, #[trigger] inputs[i], e) && exists|
            earlier: Seq<String>,
        | #[trigger]
            all_accepted(validate, inputs.take(i), earlier)
}

/// What a call of [`instantiate`] leaves behind and returns.
pub open spec fn instantiate_ensures<F: Fn(&String) -> Result<String, StdError>>(
    before: State,
    validate: F,
    msg: InstantiateMsg,
    after: State,
    r: Result<Response, ContractError>,
) -> bool {
    if msg.admins@.len() == 0 {
        &&& after == before
        &&& (r matches Err(err) && err@ == (ContractErrorView::GenericError {
            err: ERR_REQUIRED_ADMIN_ON_INIT@,
        }))
    } else {
        match r {
            Ok(resp) => {
                &&& resp@ == action_attributes(ATTR_ACTION_INSTANTIATE@)
                &&& after.members == before.members
                &&& (after.admins matches Some(admins) && all_accepted(
                    validate,
                    msg.admins@,
                    admins@,
                ))
                &&& before@.wf() ==> after@.wf()
            },
            Err(err) => {
                &&& after == before
                &&& (err matches ContractError::StdError(e) && first_rejection(
                    validate,
                    msg.admins@,
                    e,
                ))
            },
        }
    }
}

/// Sets up an instance: validates every address of the request, in order, with
/// `validate`, and stores the answers as the administrator set. An empty list
/// is rejected before anything is validated, and the first address that the
/// validator rejects ends the call with the validator's error; either way
/// nothing is stored.
pub fn instantiate<F: Fn(&String) -> Result<String, StdError>>(
    state: &mut State,
    validate: F,
    msg: InstantiateMsg,
) -> (r: Result<Response, ContractError>)
    requires
        forall|input: &String| validate.requires((input,)),
    ensures
        instantiate_ensures(*old(state), validate, msg, *final(state), r),
{
    if msg.admins.len() == 0 {
        return Err(ContractError::GenericError { err: ERR_REQUIRED_ADMIN_ON_INIT.to_owned() });
    }
    let admins = validate_admins(&validate, &msg.admins);
    store_admins(state, admins)
}

/// Validates the addresses in order and stops at the first that is rejected.
pub fn validate_admins<F: Fn(&String) -> Result<String, StdError>>(
    validate: &F,
    inputs: &Vec<String>,
) -> (r: Result<Vec<String>, StdError>)
    requires
        forall|input: &String| validate.requires((input,)),
    ensures
        match r {
            Ok(addresses) => all_accepted(*validate, inputs@, addresses@),
            Err(e) => first_rejection(*validate, inputs@, e),
        },
{
    let mut addresses: Vec<String> = Vec::new();
    let mut i: usize = 0;
    while i < inputs.len()
        invariant
            i <= inputs.len(),
            forall|input: &String| validate.requires((input,)),
            all_accepted(*validate, inputs@.take(i as int), addresses@),
        decreases inputs.len() - i,
    {
        match validate(&inputs[i]) {
            Ok(address) => {
                addresses.push(address);
                assert forall|k: int| 0 <= k < i + 1 implies accepts_as(
                    *validate,
                    #[trigger] inputs@.take(i + 1)[k],
                    addresses@[k],
                ) by {
                    if k < i {
                        assert(inputs@.take(i as int)[k] == inputs@.take(i + 1)[k]);
                    }
                }
            },
            Err(e) => {
                assert(rejects_with(*validate, inputs@[i as int], e));
                return Err(e);
            },
        }
        i += 1;
    }
    assert(inputs@.take(inputs.len() as int) =~= inputs@);
    Ok(addresses)
}

/// Stores validated addresses as the administrator set and reports the action;
/// hands a validation error on and stores nothing.
pub fn store_admins(state: &mut State, validated: Result<Vec<String>, StdError>) -> (r: Result<
    Response,
    ContractError,
>)
    ensures
        match validated {
            Ok(addresses) => {
                &&& final(state).admins == Some(addresses)
                &&& final(state).members == old(state).members
                &&& (r matches Ok(resp) && resp@ == action_attributes(ATTR_ACTION_INSTANTIATE@))
            },
            Err(e) => *final(state) == *old(state) && r == Err::<Response, ContractError>(
                ContractError::StdError(e),
            ),
        },
{
    match validated {
        Ok(addresses) => {
            state.admins = Some(addresses);
            Ok(Response::new().add_attribute(ATTR_ACTION, ATTR_ACTION_INSTANTIATE))
        },
        Err(e) => Err(ContractError::StdError(e)),
    }
}

} // verus!
