//! How registration and login answer when a step goes wrong. Asking the
//! database and hashing passwords is the caller's part; which reply a failed
//! step gets is decided here.

use crate::controller::{Controller, Reply};
use crate::user_type::{role_named, UserType};
use vstd::prelude::*;

verus! {

/// The step at which a registration stopped.
pub enum RegistrationFailure {
    /// The path names no role.
    InvalidUserType,
    /// The email belongs to a user already.
    EmailTaken,
    /// The database refused the new user, in these words.
    Refused(String),
    /// The new user could not be stored.
    NotStored,
    /// The new user was stored and is not there.
    UserMissing,
    /// The new user was stored and could not be read.
    UserUnreadable,
    /// The password could not be stored.
    PasswordNotStored,
    /// The wallet could not be stored.
    WalletNotStored,
}

/// The step at which a login stopped.
#[derive(Debug, Clone, Copy, PartialEq, Eq, Structural)]
pub enum LoginFailure {
    /// No user has the email.
    UnknownUser,
    /// The user could not be looked up.
    LookupFailed,
    /// The user has no stored password, or it could not be read.
    NoPassword,
    /// The password is not the user's.
    WrongPassword,
}

/// The status of the reply to a failed registration.
pub open spec fn registration_status(failure: RegistrationFailure) -> u16 {
    match failure {
        RegistrationFailure::InvalidUserType => 400,
        RegistrationFailure::EmailTaken => 400,
        RegistrationFailure::Refused(_) => 400,
        RegistrationFailure::NotStored => 500,
        RegistrationFailure::UserMissing => 500,
        RegistrationFailure::UserUnreadable => 500,
        RegistrationFailure::PasswordNotStored => 500,
        RegistrationFailure::WalletNotStored => 500,
    }
}

/// The words of the reply to a failed registration.
pub open spec fn registration_words(failure: RegistrationFailure) -> Seq<char> {
    match failure {
        RegistrationFailure::InvalidUserType => "Invalid user type. Must be either 'member' or 'proctor'."@,
        RegistrationFailure::EmailTaken => "Email is already taken."@,
        RegistrationFailure::Refused(words) => words@,
        RegistrationFailure::NotStored => "Error registering user."@,
        RegistrationFailure::UserMissing => "Error retrieving newly created user."@,
        RegistrationFailure::UserUnreadable => "Error retrieving user."@,
        RegistrationFailure::PasswordNotStored => "Error saving password."@,
        RegistrationFailure::WalletNotStored => "Error saving wallet information."@,
    }
}

/// The status of the reply to a failed login.
pub open spec fn login_status(failure: LoginFailure) -> u16 {
    match failure {
        LoginFailure::LookupFailed => 500,
        _ => 401,
    }
}

/// The words of the reply to a failed login. They do not say whether the
/// email or the password was wrong.
pub open spec fn login_words(failure: LoginFailure) -> Seq<char> {
    match failure {
        LoginFailure::LookupFailed => "Error logging in."@,
        _ => "Invalid username or password."@,
    }
}

impl RegistrationFailure {
    /// The reply to a registration that stopped at this step.
    pub fn reply(self) -> (reply: Reply<()>)
        ensures
            reply.says(registration_status(self), false, registration_words(self), None),
    {
        match self {
            RegistrationFailure::InvalidUserType => Controller::bad_request(
                "Invalid user type. Must be either 'member' or 'proctor'.",
            ),
            RegistrationFailure::EmailTaken => Controller::bad_request("Email is already taken."),
            RegistrationFailure::Refused(words) => Controller::bad_request(words.as_str()),
            RegistrationFailure::NotStored => Controller::internal_server_error(
                "Error registering user.",
            ),
            RegistrationFailure::UserMissing => Controller::internal_server_error(
                "Error retrieving newly created user.",
            ),
            RegistrationFailure::UserUnreadable => Controller::internal_server_error(
                "Error retrieving user.",
            ),
            RegistrationFailure::PasswordNotStored => Controller::internal_server_error(
                "Error saving password.",
            ),
            RegistrationFailure::WalletNotStored => Controller::internal_server_error(
                "Error saving wallet information.",
            ),
        }
    }
}

impl LoginFailure {
    /// The reply to a login that stopped at this step.
    pub fn reply(self) -> (reply: Reply<()>)
        ensures
            reply.says(login_status(self), false, login_words(self), None),
    {
        match self {
            LoginFailure::LookupFailed => Controller::internal_server_error("Error logging in."),
            LoginFailure::UnknownUser => Controller::unauthorized("Invalid username or password."),
            LoginFailure::NoPassword => Controller::unauthorized("Invalid username or password."),
            LoginFailure::WrongPassword => Controller::unauthorized(
                "Invalid username or password.",
            ),
        }
    }
}

/// The role that a registration path names. Every role can be registered.
pub fn registered_role(path: &str) -> (role: Result<UserType, RegistrationFailure>)
    ensures
        match role_named(path@) {
            Some(named) => role == Ok::<UserType, RegistrationFailure>(named),
            None => role == Err::<UserType, RegistrationFailure>(
                RegistrationFailure::InvalidUserType,
            ),
        },
{
    match UserType::parse(path) {
        Some(named) => Ok(named),
        None => Err(RegistrationFailure::InvalidUserType),
    }
}

/// Whether a registration goes on after the search for its email: it stops
/// only where the search found a user. A search that failed does not stop it.
pub fn email_is_free(found: Result<bool, ()>) -> (free: Result<(), RegistrationFailure>)
    ensures
        match found {
            Ok(true) => free == Err::<(), RegistrationFailure>(RegistrationFailure::EmailTaken),
            _ => free == Ok::<(), RegistrationFailure>(()),
        },
{
    match found {
        Ok(true) => Err(RegistrationFailure::EmailTaken),
        _ => Ok(()),
    }
}

/// The user that a login is for, given what the search by email found.
pub fn login_user_found<U>(found: Result<Option<U>, ()>) -> (user: Result<U, LoginFailure>)
    ensures
        match found {
            Ok(Some(model)) => user == Ok::<U, LoginFailure>(model),
            Ok(None) => user == Err::<U, LoginFailure>(LoginFailure::UnknownUser),
            Err(_) => user == Err::<U, LoginFailure>(LoginFailure::LookupFailed),
        },
{
    match found {
        Ok(Some(model)) => Ok(model),
        Ok(None) => Err(LoginFailure::UnknownUser),
        Err(_) => Err(LoginFailure::LookupFailed),
    }
}

/// The stored password that a login is checked against, given what the
/// search for it found. A search that failed counts as no password.
pub fn login_password_found<P>(found: Result<Option<P>, ()>) -> (stored: Result<P, LoginFailure>)
    ensures
        match found {
            Ok(Some(password)) => stored == Ok::<P, LoginFailure>(password),
            _ => stored == Err::<P, LoginFailure>(LoginFailure::NoPassword),
        },
{
    match found {
        Ok(Some(password)) => Ok(password),
        _ => Err(LoginFailure::NoPassword),
    }
}

} // verus!
