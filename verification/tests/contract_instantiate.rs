use std::cell::Cell;

use cosmwasm_std::testing::MockApi;
use cosmwasm_std::{Api, StdError};
use cw_member_announcement::constants::{
    ADDR_OWNER, ATTR_ACTION, ATTR_ACTION_INSTANTIATE, ERR_REQUIRED_ADMIN_ON_INIT,
};
use cw_member_announcement::contract_instantiate::{instantiate, store_admins, validate_admins};
use cw_member_announcement::error::ContractError;
use cw_member_announcement::msg::InstantiateMsg;
use cw_member_announcement::response::Attribute;
use cw_member_announcement::state::{Member, State};

fn validate(input: &String) -> Result<String, StdError> {
    MockApi::default().addr_validate(input).map(|addr| addr.into_string())
}

fn attr(key: &str, value: &str) -> Attribute {
    Attribute { key: key.to_owned(), value: value.to_owned() }
}

#[test]
fn test_instantiate() {
    let mut state = State::new();
    let msg = InstantiateMsg { admins: vec![ADDR_OWNER.to_owned()] };

    let resp = instantiate(&mut state, validate, msg).unwrap();
    assert_eq!(vec![attr(ATTR_ACTION, ATTR_ACTION_INSTANTIATE)], resp.attributes);

    // Error case #1: at least 1 admin during initialization
    let msg = InstantiateMsg { admins: vec![] };
    let resp = instantiate(&mut state, validate, msg).unwrap_err();
    assert_eq!(
        ContractError::GenericError { err: ERR_REQUIRED_ADMIN_ON_INIT.to_owned() },
        resp
    )
}

#[test]
fn instantiate_stores_the_admins_in_order() {
    let mut state = State::new();
    let msg = InstantiateMsg {
        admins: vec!["owner".to_owned(), "second".to_owned(), "third".to_owned()],
    };
    instantiate(&mut state, validate, msg).unwrap();
    assert_eq!(
        Some(vec!["owner".to_owned(), "second".to_owned(), "third".to_owned()]),
        state.admins
    );
    assert_eq!(None, state.members);
}

#[test]
fn instantiate_stores_what_the_validator_hands_back() {
    let mut state = State::new();
    let msg = InstantiateMsg { admins: vec!["Owner".to_owned(), "Other".to_owned()] };
    instantiate(&mut state, |input: &String| Ok(input.to_lowercase()), msg).unwrap();
    assert_eq!(Some(vec!["owner".to_owned(), "other".to_owned()]), state.admins);
}

#[test]
fn instantiate_without_admins_stores_nothing() {
    let mut state = State::new();
    let err = instantiate(&mut state, validate, InstantiateMsg { admins: vec![] }).unwrap_err();
    assert_eq!(
        ContractError::GenericError {
            err: "An admin is required during initialization".to_owned()
        },
        err
    );
    assert_eq!(State { admins: None, members: None }, state);
}

#[test]
fn instantiate_without_admins_asks_no_validator() {
    let calls = Cell::new(0);
    let mut state = State::new();
    instantiate(
        &mut state,
        |input: &String| {
            calls.set(calls.get() + 1);
            Ok(input.clone())
        },
        InstantiateMsg { admins: vec![] },
    )
    .unwrap_err();
    assert_eq!(0, calls.get());
}

#[test]
fn instantiate_hands_the_validator_error_on() {
    let mut state = State::new();
    // the mock validator wants at least three bytes
    let msg = InstantiateMsg { admins: vec!["owner".to_owned(), "ab".to_owned()] };
    let expected = MockApi::default().addr_validate("ab").unwrap_err();
    let err = instantiate(&mut state, validate, msg).unwrap_err();
    assert_eq!(ContractError::StdError(expected), err);
    assert_eq!(State { admins: None, members: None }, state);
}

#[test]
fn instantiate_stops_at_the_first_rejected_address() {
    let calls = Cell::new(0);
    let mut state = State::new();
    let msg = InstantiateMsg {
        admins: vec!["good".to_owned(), "bad".to_owned(), "worse".to_owned(), "good".to_owned()],
    };
    let err = instantiate(
        &mut state,
        |input: &String| {
            calls.set(calls.get() + 1);
            if input == "good" {
                Ok(input.clone())
            } else {
                Err(StdError::generic_err(format!("rejected {}", input)))
            }
        },
        msg,
    )
    .unwrap_err();
    assert_eq!(ContractError::StdError(StdError::generic_err("rejected bad")), err);
    assert_eq!(2, calls.get());
    assert_eq!(None, state.admins);
}

#[test]
fn instantiate_keeps_the_roster() {
    let roster = vec![Member {
        address: "user1".to_owned(),
        username: "username".to_owned(),
        intro: "Hello there!".to_owned(),
    }];
    let mut state = State { admins: None, members: Some(roster.clone()) };
    instantiate(&mut state, validate, InstantiateMsg { admins: vec!["owner".to_owned()] })
        .unwrap();
    assert_eq!(Some(roster), state.members);
}

#[test]
fn validate_admins_collects_or_fails() {
    let inputs = vec!["owner".to_owned(), "admin".to_owned()];
    assert_eq!(Ok(inputs.clone()), validate_admins(&validate, &inputs));
    let inputs = vec!["owner".to_owned(), "".to_owned()];
    assert_eq!(
        Err(MockApi::default().addr_validate("").unwrap_err()),
        validate_admins(&validate, &inputs)
    );
    assert_eq!(Ok(Vec::<String>::new()), validate_admins(&validate, &Vec::new()));
}

#[test]
fn store_admins_stores_or_hands_the_error_on() {
    let mut state = State::new();
    let resp = store_admins(&mut state, Ok(vec!["owner".to_owned()])).unwrap();
    assert_eq!(vec![attr("action", "instantiate")], resp.attributes);
    assert_eq!(Some(vec!["owner".to_owned()]), state.admins);

    let before = state.clone();
    let err = store_admins(&mut state, Err(StdError::generic_err("no"))).unwrap_err();
    assert_eq!(ContractError::StdError(StdError::generic_err("no")), err);
    assert_eq!(before, state);
}
