//! The errors of the handlers.

use cosmwasm_std::StdError;
use vstd::prelude::*;

verus! {

/// `cosmwasm_std::StdError`, the host library's error type. A value of it is
/// carried through as it came; nothing is known of what it holds.
#[verifier::external_type_specification]
#[verifier::external_body]
pub struct ExStdError(StdError);

/// The error that `StdError::not_found` builds for a kind: the one that says
/// that a thing of this kind was looked for and is not there.
pub uninterp spec fn not_found_error(kind: Seq<char>) -> StdError;

/// Calls `StdError::not_found`, which builds the error's `NotFound` variant
/// around the kind and nothing else: the result is a function of the kind.
#[verifier::external_body]
pub(crate) fn not_found(kind: &str) -> (e: StdError)
    ensures
        e == not_found_error(kind@),
{
    StdError::not_found(kind)
}

/// Why a call was rejected. Every error aborts the call and leaves the state
/// as it was.
#[derive(Debug, PartialEq)]
pub enum ContractError {
    /// An error of the host library, passed on as it came.
    StdError(StdError),
    /// A failure described by its message alone.
    GenericError { err: String },
    /// The username of a registration is held by a member already.
    MemberAlreadyExists { username: String },
    /// The username of a registration is too short.
    InvalidMemberUsernameLen { username: String },
    /// The introduction of a registration is too short.
    InvalidMemberIntroLen,
}

/// A [`ContractError`] with its texts as sequences of characters.
pub enum ContractErrorView {
    StdError(StdError),
    GenericError { err: Seq<char> },
    MemberAlreadyExists { username: Seq<char> },
    InvalidMemberUsernameLen { username: Seq<char> },
    InvalidMemberIntroLen,
}

impl View for ContractError {
    type V = ContractErrorView;

    open spec fn view(&self) -> ContractErrorView {
        match self {
            ContractError::StdError(e) => ContractErrorView::StdError(*e),
            ContractError::GenericError { err } => ContractErrorView::GenericError { err: err@ },
            ContractError::MemberAlreadyExists { username } => ContractErrorView::MemberAlreadyExists {
                username: username@,
            },
            ContractError::InvalidMemberUsernameLen { username } => {
                ContractErrorView::InvalidMemberUsernameLen { username: username@ }
            },
            ContractError::InvalidMemberIntroLen => ContractErrorView::InvalidMemberIntroLen,
        }
    }
}

} // verus!
