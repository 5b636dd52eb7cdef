//! The roles a user can hold, and their lowercase names.

use vstd::prelude::*;

verus! {

/// The role of a user. Only members and proctors may hold a relay session.
#[derive(Debug, Clone, Copy, PartialEq, Eq, Structural)]
pub enum UserType {
    Member,
    Proctor,
    Admin,
}

/// The lowercase name of a role, as stored and sent.
pub open spec fn role_name(role: UserType) -> Seq<char> {
    match role {
        UserType::Member => "member"@,
        UserType::Proctor => "proctor"@,
        UserType::Admin => "admin"@,
    }
}

/// The role that a name stands for, if it is the name of one.
pub open spec fn role_named(name: Seq<char>) -> Option<UserType> {
    if name == "member"@ {
        Some(UserType::Member)
    } else if name == "proctor"@ {
        Some(UserType::Proctor)
    } else if name == "admin"@ {
        Some(UserType::Admin)
    } else {
        None
    }
}

impl UserType {
    /// Whether a user of this role may open a relay session.
    pub open spec fn may_connect(self) -> bool {
        self == UserType::Member || self == UserType::Proctor
    }

    /// Whether a user of this role may open a relay session.
    pub fn can_connect(&self) -> (allowed: bool)
        ensures
            allowed == self.may_connect(),
    {
        match self {
            UserType::Member => true,
            UserType::Proctor => true,
            UserType::Admin => false,
        }
    }

    /// The lowercase name of this role.
    pub fn to_string(&self) -> (name: String)
        ensures
            name@ == role_name(*self),
    {
        match self {
            UserType::Member => "member".to_owned(),
            UserType::Proctor => "proctor".to_owned(),
            UserType::Admin => "admin".to_owned(),
        }
    }

    /// Reads a role from its lowercase name; any other text is no role.
    pub fn parse(name: &str) -> (role: Option<UserType>)
        ensures
            role == role_named(name@),
    {
        let owned = name.to_owned();
        if owned == "member".to_owned() {
            Some(UserType::Member)
        } else if owned == "proctor".to_owned() {
            Some(UserType::Proctor)
        } else if owned == "admin".to_owned() {
            Some(UserType::Admin)
        } else {
            None
        }
    }
}

/// Every role is read back from its own name.
pub proof fn lemma_role_name_round_trip(role: UserType)
    ensures
        role_named(role_name(role)) == Some(role),
{
    reveal_strlit("member");
    reveal_strlit("proctor");
    reveal_strlit("admin");
    assert("member"@.len() == 6);
    assert("proctor"@.len() == 7);
    assert("admin"@.len() == 5);
}

} // verus!
