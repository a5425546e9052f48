//! The read-only requests. They take the state as it is and change nothing.

use crate::constants::KEY_ADMINS;
use crate::error::{not_found, not_found_error};
use crate::msg::{GetAdminsResp, GetMembersResp, QueryMsg, QueryResp};
use crate::state::{copy_members, copy_texts, State};
use cosmwasm_std::StdError;
use vstd::prelude::*;

verus! {

/// What [`get_admins`] returns for a state: the stored administrator set in
/// its order, or the not-found error where none was ever stored.
pub open spec fn get_admins_ensures(state: State, r: Result<GetAdminsResp, StdError>) -> bool {
    match state@.admins {
        Some(admins) => r matches Ok(resp) && resp@ == admins,
        None => r == Err::<GetAdminsResp, StdError>(not_found_error(KEY_ADMINS@)),
    }
}

/// What [`get_members`] returns for a state: the roster in storage order,
/// which is empty where none was ever stored.
pub open spec fn get_members_ensures(state: State, r: Result<GetMembersResp, StdError>) -> bool {
    r matches Ok(resp) && resp@ == state@.roster()
}

/// What [`query`] returns for a state and a request.
pub open spec fn query_ensures(state: State, msg: QueryMsg, r: Result<QueryResp, StdError>) -> bool {
    match msg {
        QueryMsg::GetAdmins {  } => match r {
            Ok(QueryResp::Admins(resp)) => get_admins_ensures(state, Ok(resp)),
            Ok(QueryResp::Members(_)) => false,
            Err(e) => get_admins_ensures(state, Err(e)),
        },
        QueryMsg::GetMembers {  } => match r {
            Ok(QueryResp::Members(resp)) => get_members_ensures(state, Ok(resp)),
            Ok(QueryResp::Admins(_)) => false,
            Err(e) => get_members_ensures(state, Err(e)),
        },
    }
}

/// Answers a read-only request.
pub fn query(state: &State, msg: QueryMsg) -> (r: Result<QueryResp, StdError>)
    ensures
        query_ensures(*state, msg, r),
{
    match msg {
        QueryMsg::GetAdmins {  } => match get_admins(state) {
            Ok(resp) => Ok(QueryResp::Admins(resp)),
            Err(e) => Err(e),
        },
        QueryMsg::GetMembers {  } => match get_members(state) {
            Ok(resp) => Ok(QueryResp::Members(resp)),
            Err(e) => Err(e),
        },
    }
}

/// Reads the administrator set.
pub fn get_admins(state: &State) -> (r: Result<GetAdminsResp, StdError>)
    ensures
        get_admins_ensures(*state, r),
{
    match &state.admins {
        Some(admins) => Ok(GetAdminsResp { admins: copy_texts(admins) }),
        None => Err(not_found(KEY_ADMINS)),
    }
}

/// Reads the roster.
pub fn get_members(state: &State) -> (r: Result<GetMembersResp, StdError>)
    ensures
        get_members_ensures(*state, r),
{
    let members = match &state.members {
        Some(members) => copy_members(members),
        None => Vec::new(),
    };
    let resp = GetMembersResp { members };
    assert(resp@ =~= state@.roster());
    Ok(resp)
}

/// Reading is repeatable: two answers to the same request on the same state
/// agree, on the administrators and the members by their views and on the
/// error by its value.
pub proof fn lemma_query_repeatable(
    state: State,
    msg: QueryMsg,
    first: Result<QueryResp, StdError>,
    second: Result<QueryResp, StdError>,
)
    requires
        query_ensures(state, msg, first),
        query_ensures(state, msg, second),
    ensures
        match (first, second) {
            (Ok(QueryResp::Admins(a)), Ok(QueryResp::Admins(b))) => a@ == b@,
            (Ok(QueryResp::Members(a)), Ok(QueryResp::Members(b))) => a@ == b@,
            (Err(a), Err(b)) => a == b,
            _ => false,
        },
{
}

/// Reading the roster is repeatable: two answers of [`get_members`] on the
/// same state are both a success and hold the same records in the same order.
pub proof fn lemma_get_members_repeatable(
    state: State,
    first: Result<GetMembersResp, StdError>,
    second: Result<GetMembersResp, StdError>,
)
    requires
        get_members_ensures(state, first),
        get_members_ensures(state, second),
    ensures
        first is Ok,
        second is Ok,
        first->Ok_0@ == second->Ok_0@,
{
}

} // verus!
