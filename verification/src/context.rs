//! Who makes a request, and why a request is refused.

use vstd::prelude::*;
use crate::tables::opt_view;

verus! {

/// The sender of a request as the service resolves it: the application user
/// linked to the connection identity (if any), the identity itself, and the
/// standing of the sender.
#[derive(Clone, Debug)]
pub struct Caller {
    /// Application user id linked to the sender's identity, if one is linked.
    pub user_id: Option<String>,
    /// Hex form of the sender's connection identity.
    pub identity: String,
    /// The sender is a platform administrator.
    pub is_platform_admin: bool,
    /// The sender is the service itself (command line or scheduler).
    pub is_system: bool,
}

/// View of a [`Caller`].
pub struct CallerV {
    pub user_id: Option<Seq<char>>,
    pub identity: Seq<char>,
    pub is_platform_admin: bool,
    pub is_system: bool,
}

impl View for Caller {
    type V = CallerV;

    open spec fn view(&self) -> CallerV {
        CallerV {
            user_id: opt_view(self.user_id),
            identity: self.identity@,
            is_platform_admin: self.is_platform_admin,
            is_system: self.is_system,
        }
    }
}

/// Why a request was refused. A refused request changes nothing.
#[derive(Clone, Copy, Debug, PartialEq, Eq, Structural)]
pub enum ChatError {
    /// The sender's identity is linked to no user.
    NotRegistered,
    /// The sender may not do this.
    NotPermitted,
    /// A row the request names does not exist.
    NotFound,
    /// A row the request would create already exists.
    AlreadyExists,
    /// An argument is malformed (length, characters, value).
    Invalid,
    /// A quota would be exceeded.
    LimitReached,
    /// The sender acts too often.
    RateLimited,
}

} // verus!
