//! Roles of the users of the service, ordered by what they may do.

use vstd::prelude::*;
use vstd::string::*;
use crate::text::{ascii_lowered, is_text, is_text_ignoring_case};

verus! {

/// A user's role. An administrator may do what a merchant may, and a
/// merchant what a user may.
#[derive(Clone, Copy, Debug, PartialEq, Eq, Structural)]
pub enum Role {
    User,
    Merchant,
    Admin,
}

/// The name of a role.
pub open spec fn role_name(role: Role) -> Seq<char> {
    match role {
        Role::User => seq!['u', 's', 'e', 'r'],
        Role::Merchant => seq!['m', 'e', 'r', 'c', 'h', 'a', 'n', 't'],
        Role::Admin => seq!['a', 'd', 'm', 'i', 'n'],
    }
}

/// The role that a text names, whatever the case of its letters; a text
/// that names no role stands for a user.
pub open spec fn role_of(s: Seq<char>) -> Role {
    if ascii_lowered(s) == role_name(Role::Admin) {
        Role::Admin
    } else if ascii_lowered(s) == role_name(Role::Merchant) {
        Role::Merchant
    } else {
        Role::User
    }
}

/// The role that a text names exactly, in lower case, if it names one.
pub open spec fn exact_role_of(s: Seq<char>) -> Option<Role> {
    if s == role_name(Role::Admin) {
        Some(Role::Admin)
    } else if s == role_name(Role::Merchant) {
        Some(Role::Merchant)
    } else if s == role_name(Role::User) {
        Some(Role::User)
    } else {
        None
    }
}

/// The rank of a role: the higher, the more it may do.
pub open spec fn rank(role: Role) -> int {
    match role {
        Role::User => 0,
        Role::Merchant => 1,
        Role::Admin => 2,
    }
}

impl Role {
    /// The role's name, in lower case.
    pub fn as_str(&self) -> (r: &'static str)
        ensures
            r@ == role_name(*self),
    {
        proof {
            reveal_strlit("user");
            reveal_strlit("merchant");
            reveal_strlit("admin");
        }
        match self {
            Role::User => "user",
            Role::Merchant => "merchant",
            Role::Admin => "admin",
        }
    }

    /// The role's name as an owned text.
    pub fn to_string(&self) -> (r: String)
        ensures
            r@ == role_name(*self),
    {
        String::from_str(self.as_str())
    }

    /// The role that `s` names, whatever the case of its letters. A text
    /// that names no role stands for a user.
    pub fn from_str(s: &str) -> (r: Role)
        ensures
            r == role_of(s@),
    {
        let admin = Role::Admin.as_str();
        let merchant = Role::Merchant.as_str();
        assert(ascii_lowered(admin@) =~= admin@);
        assert(ascii_lowered(merchant@) =~= merchant@);
        if is_text_ignoring_case(s, admin) {
            Role::Admin
        } else if is_text_ignoring_case(s, merchant) {
            Role::Merchant
        } else {
            Role::User
        }
    }

    /// The role that `s` names exactly, in lower case.
    pub fn parse_exact(s: &str) -> (r: Option<Role>)
        ensures
            r == exact_role_of(s@),
    {
        if is_text(s, Role::Admin.as_str()) {
            Some(Role::Admin)
        } else if is_text(s, Role::Merchant.as_str()) {
            Some(Role::Merchant)
        } else if is_text(s, Role::User.as_str()) {
            Some(Role::User)
        } else {
            None
        }
    }

    /// Whether this role may do what `required` may.
    pub fn has_permission(&self, required: &Role) -> (r: bool)
        ensures
            r == (rank(*self) >= rank(*required)),
    {
        match (self, required) {
            (Role::Admin, _) => true,
            (Role::Merchant, Role::Merchant) => true,
            (Role::Merchant, Role::User) => true,
            (Role::User, Role::User) => true,
            _ => false,
        }
    }
}

impl Default for Role {
    fn default() -> (r: Role)
        ensures
            r == Role::User,
    {
        Role::User
    }
}

} // verus!
