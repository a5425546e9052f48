//! Requests and responses of the three entry points.

use crate::state::{address_views, member_views, Member, MemberView};
use vstd::prelude::*;

verus! {

/// The request that initializes an instance.
#[derive(Clone, Debug, PartialEq, Eq)]
pub struct InstantiateMsg {
    /// The addresses of the administrators, as the caller wrote them.
    pub admins: Vec<String>,
}

/// The read-only requests.
#[derive(Clone, Debug, PartialEq, Eq)]
pub enum QueryMsg {
    GetAdmins {},
    GetMembers {},
}

/// The administrator set, in the order in which it was stored.
#[derive(Clone, Debug, PartialEq, Eq)]
pub struct GetAdminsResp {
    pub admins: Vec<String>,
}

impl View for GetAdminsResp {
    type V = Seq<Seq<char>>;

    open spec fn view(&self) -> Seq<Seq<char>> {
        address_views(self.admins@)
    }
}

/// The roster, in storage order.
#[derive(Clone, Debug, PartialEq, Eq)]
pub struct GetMembersResp {
    pub members: Vec<Member>,
}

impl View for GetMembersResp {
    type V = Seq<MemberView>;

    open spec fn view(&self) -> Seq<MemberView> {
        member_views(self.members@)
    }
}

/// The answer to a read-only request.
#[derive(Clone, Debug, PartialEq, Eq)]
pub enum QueryResp {
    Admins(GetAdminsResp),
    Members(GetMembersResp),
}

/// The state-changing requests.
#[derive(Clone, Debug, PartialEq, Eq)]
pub enum ExecuteMsg {
    Register { member: MemberInfo },
    Leave {},
}

/// What a caller submits to register.
#[derive(Clone, Debug, PartialEq, Eq)]
pub struct MemberInfo {
    pub username: String,
    pub intro: String,
}

} // verus!
