//! What a user record says of its user, by the name of the attribute.

use vstd::prelude::*;
use vstd::string::StringExecFns;

verus! {

/// The attributes of a user that can be asked for by name.
pub struct UserProfile {
    pub first_name: String,
    pub last_name: String,
    pub email: String,
    pub phone: String,
    pub chain: String,
}

/// A first and a last name with one space between them.
pub open spec fn full_name(first_name: Seq<char>, last_name: Seq<char>) -> Seq<char> {
    first_name + " "@ + last_name
}

/// The value of the attribute `attribute`, where a user has one of that name.
pub open spec fn attribute_value(profile: UserProfile, attribute: Seq<char>) -> Option<Seq<char>> {
    if attribute == "first_name"@ {
        Some(profile.first_name@)
    } else if attribute == "last_name"@ {
        Some(profile.last_name@)
    } else if attribute == "email"@ {
        Some(profile.email@)
    } else if attribute == "full_name"@ {
        Some(full_name(profile.first_name@, profile.last_name@))
    } else if attribute == "phone"@ {
        Some(profile.phone@)
    } else if attribute == "chain"@ {
        Some(profile.chain@)
    } else {
        None
    }
}

/// The view of an optional text.
pub open spec fn value_view(value: Option<String>) -> Option<Seq<char>> {
    match value {
        Some(found) => Some(found@),
        None => None,
    }
}

impl UserProfile {
    /// The first and the last name with one space between them.
    pub fn get_full_name(&self) -> (name: String)
        ensures
            name@ == full_name(self.first_name@, self.last_name@),
    {
        let mut name = self.first_name.clone();
        name.append(" ");
        name.append(self.last_name.as_str());
        name
    }

    /// The value of the attribute `attribute`, where a user has one of that
    /// name.
    pub fn get_value(&self, attribute: &str) -> (value: Option<String>)
        ensures
            value_view(value) == attribute_value(*self, attribute@),
    {
        let wanted = attribute.to_owned();
        if wanted == "first_name".to_owned() {
            Some(self.first_name.clone())
        } else if wanted == "last_name".to_owned() {
            Some(self.last_name.clone())
        } else if wanted == "email".to_owned() {
            Some(self.email.clone())
        } else if wanted == "full_name".to_owned() {
            Some(self.get_full_name())
        } else if wanted == "phone".to_owned() {
            Some(self.phone.clone())
        } else if wanted == "chain".to_owned() {
            Some(self.chain.clone())
        } else {
            None
        }
    }
}

} // verus!
