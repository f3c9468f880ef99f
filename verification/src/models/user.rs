//! Roles, accounts and the principal resolved for a request.

use vstd::prelude::*;
use vstd::std_specs::convert::FromSpecImpl;
use vstd::string::*;

use crate::utils::codec::same_text;

verus! {

/// The role attached to an account. Roles are flat: none implies another.
#[derive(Clone, Copy, Debug, PartialEq, Eq, Structural)]
pub enum UserRole {
    Admin,
    Moderator,
    User,
}

/// The lower-case form of a text, as `str::to_lowercase` gives it.
pub uninterp spec fn lowercase_of(text: Seq<char>) -> Seq<char>;

/// `str::to_lowercase`: the lower-case form of the text.
#[verifier::external_body]
fn lowercase(text: &str) -> (lower: String)
    ensures
        lower@ == lowercase_of(text@),
{
    text.to_lowercase()
}

/// The role that a lower-case name stands for. A name that is none of the
/// three stands for the least privileged role.
pub open spec fn role_named(name: Seq<char>) -> UserRole {
    if name == "admin"@ {
        UserRole::Admin
    } else if name == "moderator"@ {
        UserRole::Moderator
    } else {
        UserRole::User
    }
}

impl UserRole {
    /// The lower-case name under which the role is stored and sent.
    pub open spec fn name(self) -> Seq<char> {
        match self {
            UserRole::Admin => "admin"@,
            UserRole::Moderator => "moderator"@,
            UserRole::User => "user"@,
        }
    }

    /// The lower-case name of the role.
    pub fn to_str(&self) -> (name: &str)
        ensures
            name@ == self.name(),
    {
        match self {
            UserRole::Admin => "admin",
            UserRole::Moderator => "moderator",
            UserRole::User => "user",
        }
    }

    /// The role that a name already in lower case stands for.
    pub fn from_lowercase(name: &str) -> (role: UserRole)
        ensures
            role == role_named(name@),
    {
        if same_text(name, "admin") {
            UserRole::Admin
        } else if same_text(name, "moderator") {
            UserRole::Moderator
        } else {
            UserRole::User
        }
    }
}

impl From<String> for UserRole {
    /// The role that a name stands for, whatever its case.
    fn from(s: String) -> (role: UserRole) {
        let lower = lowercase(s.as_str());
        UserRole::from_lowercase(lower.as_str())
    }
}

impl FromSpecImpl<String> for UserRole {
    open spec fn obeys_from_spec() -> bool {
        true
    }

    open spec fn from_spec(s: String) -> UserRole {
        role_named(lowercase_of(s@))
    }
}

/// Every role is the role that its own name stands for.
pub proof fn law_role_names_are_distinct(role: UserRole)
    ensures
        role_named(role.name()) == role,
{
    reveal_strlit("admin");
    reveal_strlit("moderator");
    reveal_strlit("user");
    assert("admin"@.len() == 5 && "moderator"@.len() == 9 && "user"@.len() == 4);
}

/// An account as the directory keeps it.
#[derive(Clone, Debug)]
pub struct UserModel {
    pub id: String,
    pub name: String,
    pub email: String,
    pub password: String,
    pub role: UserRole,
    pub photo: String,
    pub verified: i8,
    /// Seconds since the epoch.
    pub created_at: Option<i64>,
    /// Seconds since the epoch.
    pub updated_at: Option<i64>,
}

/// The identity attached to a request once it has passed the checkpoint.
#[derive(Clone, Debug)]
pub struct Principal {
    pub id: String,
    pub role: UserRole,
}

impl UserModel {
    /// The principal that this account acts as.
    pub fn principal(&self) -> (p: Principal)
        ensures
            p.id == self.id,
            p.role == self.role,
    {
        Principal { id: self.id.clone(), role: self.role }
    }
}

} // verus!
