//! The decisions of the authentication step that stands before every
//! protected route. Reading the request, checking the token's signature and
//! asking the database are the caller's part.

use crate::claims::{parsed_id, Claims};
use crate::controller::{Controller, Reply};
use crate::token::{
    bearer_scheme, bytes_view, query_token, remove_all, slice_view, token_of,
};
use vstd::prelude::*;

verus! {

/// What came of looking for a token in the request and checking it.
pub enum TokenCheck {
    /// The request carries no token.
    Missing,
    /// The token did not pass the check.
    Invalid,
    /// The token passed, with these claims.
    Valid(Claims),
}

/// What came of looking the token's user up.
#[derive(Debug, Clone, Copy, PartialEq, Eq, Structural)]
pub enum UserLookup {
    Found,
    Missing,
    Failed,
}

/// What to do once the token has been checked.
pub enum TokenVerdict {
    /// Look this user up.
    LookUp(i32),
    /// Answer with this reply.
    Reject(Reply<()>),
}

/// The authentication step.
pub struct AuthMiddleware;

impl AuthMiddleware {
    /// Looks for the token of a request, given the bytes of its
    /// `Authorization` header, if it has one, and of its query. The header
    /// is taken without any `Bearer `; the query is read only where there is
    /// no header, for the value of its first `token=` or `authorization=`.
    pub fn token_in(authorization: Option<&[u8]>, query: &[u8]) -> (token: Option<Vec<u8>>)
        ensures
            bytes_view(token) == token_of(slice_view(authorization), query@),
    {
        match authorization {
            Some(header) => {
                let scheme: Vec<u8> = vec![66u8, 101u8, 97u8, 114u8, 101u8, 114u8, 32u8];
                assert(scheme@ =~= bearer_scheme());
                Some(remove_all(header, scheme.as_slice()))
            },
            None => query_token(query),
        }
    }

    /// What follows from the token: a request without a token, or with one
    /// that did not pass, is answered with 401; so is one whose subject is
    /// no user id. A valid token is answered with 500 where no database is
    /// at hand. Otherwise its user is to be looked up.
    pub fn after_token(token: TokenCheck, database_available: bool) -> (verdict: TokenVerdict)
        ensures
            match token {
                TokenCheck::Missing => verdict is Reject && verdict->Reject_0.says(
                    401,
                    false,
                    "No token provided"@,
                    None,
                ),
                TokenCheck::Invalid => verdict is Reject && verdict->Reject_0.says(
                    401,
                    false,
                    "Invalid token"@,
                    None,
                ),
                TokenCheck::Valid(claims) => match parsed_id(claims.sub@) {
                    None => verdict is Reject && verdict->Reject_0.says(
                        401,
                        false,
                        "Invalid token"@,
                        None,
                    ),
                    Some(user_id) => if database_available {
                        verdict is LookUp && verdict->LookUp_0 == user_id
                    } else {
                        verdict is Reject && verdict->Reject_0.says(
                            500,
                            false,
                            "Database connection not available"@,
                            None,
                        )
                    },
                },
            },
    {
        match token {
            TokenCheck::Missing => TokenVerdict::Reject(
                Controller::unauthorized("No token provided"),
            ),
            TokenCheck::Invalid => TokenVerdict::Reject(Controller::unauthorized("Invalid token")),
            TokenCheck::Valid(claims) => match claims.user_id() {
                None => TokenVerdict::Reject(Controller::unauthorized("Invalid token")),
                Some(user_id) => if database_available {
                    TokenVerdict::LookUp(user_id)
                } else {
                    TokenVerdict::Reject(
                        Controller::internal_server_error("Database connection not available"),
                    )
                },
            },
        }
    }

    /// What follows from the lookup: the request goes on if the user was
    /// found; it is answered with 401 if there is no such user, and with 500
    /// if the lookup failed.
    pub fn after_lookup(lookup: UserLookup) -> (refusal: Option<Reply<()>>)
        ensures
            match lookup {
                UserLookup::Found => refusal is None,
                UserLookup::Missing => refusal is Some && refusal->0.says(
                    401,
                    false,
                    "User does not exist"@,
                    None,
                ),
                UserLookup::Failed => refusal is Some && refusal->0.says(
                    500,
                    false,
                    "Error checking user in the database"@,
                    None,
                ),
            },
    {
        match lookup {
            UserLookup::Found => None,
            UserLookup::Missing => Some(Controller::unauthorized("User does not exist")),
            UserLookup::Failed => Some(
                Controller::internal_server_error("Error checking user in the database"),
            ),
        }
    }
}

} // verus!
