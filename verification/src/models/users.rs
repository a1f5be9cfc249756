//! Users and their roles.

use vstd::prelude::*;
use vstd::string::StringExecFns;
use crate::identifiers::{user_id_text, uuid_text};

verus! {

/// What a user is allowed to act as.
#[derive(Clone, Copy, Debug, PartialEq, Eq, Structural)]
pub enum Role {
    Pacilian,
    Caregiver,
}

impl Role {
    /// The role's name as it appears in claims and on the wire.
    pub open spec fn name(&self) -> Seq<char> {
        match self {
            Role::Pacilian => "pacilian"@,
            Role::Caregiver => "caregiver"@,
        }
    }

    pub fn as_str(&self) -> (text: &'static str)
        ensures
            text@ == self.name(),
    {
        match self {
            Role::Pacilian => "pacilian",
            Role::Caregiver => "caregiver",
        }
    }
}

/// A registered user. The identifier is the 128-bit value of the user's UUID.
#[derive(Clone, Debug, PartialEq, Eq)]
pub struct User {
    pub id: u128,
    pub email: String,
    pub password: String,
    pub role: Role,
}

/// A [`User`] as specifications see it.
pub ghost struct UserView {
    pub id: u128,
    pub email: Seq<char>,
    pub password: Seq<char>,
    pub role: Role,
}

impl View for User {
    type V = UserView;

    open spec fn view(&self) -> UserView {
        UserView { id: self.id, email: self.email@, password: self.password@, role: self.role }
    }
}

impl User {
    /// The user as a line of text: the identifier and the e-mail address
    /// in braces, with a comma between them.
    pub open spec fn text(&self) -> Seq<char> {
        "{"@ + uuid_text(self.id) + ","@ + self.email@ + "}"@
    }

    /// Writes the user as a line of text.
    pub fn to_text(&self) -> (text: String)
        ensures
            text@ == self.text(),
    {
        let mut out = String::from_str("{");
        out.append(user_id_text(self.id).as_str());
        out.append(",");
        out.append(self.email.as_str());
        out.append("}");
        out
    }
}

/// A user about to be registered.
#[derive(Clone, Debug, PartialEq, Eq)]
pub struct InsertableUser {
    pub email: String,
    pub password: String,
    pub role: Role,
}

/// The credentials presented at login.
#[derive(Clone, Debug, PartialEq, Eq)]
pub struct LoginFields {
    pub email: String,
    pub password: String,
}

} // verus!
