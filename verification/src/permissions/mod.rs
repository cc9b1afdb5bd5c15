//! Who may do what: permission levels, the whitelist, and the check that
//! gates the commands.

pub mod validator;
pub mod whitelist;

pub use validator::PermissionValidator;
pub use whitelist::{PermissionLevel, WhitelistManager};

use vstd::prelude::*;

verus! {

/// What a permission check came to.
#[derive(Debug, Clone, PartialEq)]
pub enum PermissionResult {
    /// The user is allowed, at this level.
    Authorized(PermissionLevel),
    /// The user is not allowed.
    Unauthorized,
    /// The check could not be made.
    Error(String),
}

impl PermissionResult {
    /// Whether the user is allowed.
    pub fn is_authorized(&self) -> (allowed: bool)
        ensures
            allowed == (*self is Authorized),
    {
        match self {
            PermissionResult::Authorized(_) => true,
            _ => false,
        }
    }

    /// The level at which the user is allowed, if at all.
    pub fn permission_level(&self) -> (level: Option<PermissionLevel>)
        ensures
            match *self {
                PermissionResult::Authorized(l) => level == Some(l),
                _ => level is None,
            },
    {
        match self {
            PermissionResult::Authorized(level) => Some(*level),
            _ => None,
        }
    }
}

} // verus!
