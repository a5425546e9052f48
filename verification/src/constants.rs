//! Attribute keys and values, and fixed messages.

use vstd::prelude::*;

verus! {

/// Key of the attribute that every successful state change carries.
pub const ATTR_ACTION: &'static str = "action";

/// Value of the action attribute after initialization.
pub const ATTR_ACTION_INSTANTIATE: &'static str = "instantiate";

/// Value of the action attribute after a registration.
pub const ATTR_ACTION_REGISTER: &'static str = "register";

/// Value of the action attribute after a member left.
pub const ATTR_ACTION_LEAVE: &'static str = "leave";

/// Address of the owner in examples.
pub const ADDR_OWNER: &'static str = "owner";

/// Address of a user in examples.
pub const ADDR_USER_1: &'static str = "user1";

/// Label of a contract instance in examples.
pub const CONTRACT_1: &'static str = "Contract 1";

/// Message of the error that an empty administrator list gives.
pub const ERR_REQUIRED_ADMIN_ON_INIT: &'static str = "An admin is required during initialization";

/// Storage key of the administrator set.
pub const KEY_ADMINS: &'static str = "admins";

/// Storage key of the member roster.
pub const KEY_MEMBERS: &'static str = "members";

} // verus!
