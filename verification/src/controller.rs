//! The replies of the HTTP side: status, success flag, message and data.
//! Turning a reply into a response on the wire is the caller's part.

use crate::user_type::{role_named, UserType};
use vstd::prelude::*;

verus! {

/// The body of every reply.
pub struct ApiResponse<T> {
    pub success: bool,
    pub message: String,
    pub data: Option<T>,
}

/// A reply: an HTTP status with its body.
pub struct Reply<T> {
    pub status: u16,
    pub body: ApiResponse<T>,
}

impl<T> Reply<T> {
    /// Whether this reply has the given status, success flag, message and
    /// data.
    pub open spec fn says(self, status: u16, success: bool, message: Seq<char>, data: Option<T>) -> bool {
        &&& self.status == status
        &&& self.body.success == success
        &&& self.body.message@ == message
        &&& self.body.data == data
    }
}

/// The builder of replies.
pub struct Controller;

impl Controller {
    /// 200 with data.
    pub fn ok_with_data<T>(message: &str, data: T) -> (reply: Reply<T>)
        ensures
            reply.says(200, true, message@, Some(data)),
    {
        Reply {
            status: 200,
            body: ApiResponse { success: true, message: message.to_owned(), data: Some(data) },
        }
    }

    /// 200 without data.
    pub fn ok_empty(message: &str) -> (reply: Reply<()>)
        ensures
            reply.says(200, true, message@, None),
    {
        Reply {
            status: 200,
            body: ApiResponse { success: true, message: message.to_owned(), data: None },
        }
    }

    /// 201 with data.
    pub fn created<T>(message: &str, data: T) -> (reply: Reply<T>)
        ensures
            reply.says(201, true, message@, Some(data)),
    {
        Reply {
            status: 201,
            body: ApiResponse { success: true, message: message.to_owned(), data: Some(data) },
        }
    }

    /// 400.
    pub fn bad_request(message: &str) -> (reply: Reply<()>)
        ensures
            reply.says(400, false, message@, None),
    {
        Reply {
            status: 400,
            body: ApiResponse { success: false, message: message.to_owned(), data: None },
        }
    }

    /// 401.
    pub fn unauthorized(message: &str) -> (reply: Reply<()>)
        ensures
            reply.says(401, false, message@, None),
    {
        Reply {
            status: 401,
            body: ApiResponse { success: false, message: message.to_owned(), data: None },
        }
    }

    /// 404.
    pub fn not_found(message: &str) -> (reply: Reply<()>)
        ensures
            reply.says(404, false, message@, None),
    {
        Reply {
            status: 404,
            body: ApiResponse { success: false, message: message.to_owned(), data: None },
        }
    }

    /// 500.
    pub fn internal_server_error(message: &str) -> (reply: Reply<()>)
        ensures
            reply.says(500, false, message@, None),
    {
        Reply {
            status: 500,
            body: ApiResponse { success: false, message: message.to_owned(), data: None },
        }
    }

    /// What a search for a user by id comes to: the user that was found, 404
    /// where there is none, 500 where the search failed.
    pub fn get_user_by_id<U>(found: Result<Option<U>, ()>) -> (user: Result<U, Reply<()>>)
        ensures
            match found {
                Ok(Some(model)) => user == Ok::<U, Reply<()>>(model),
                Ok(None) => user is Err && user->Err_0.says(404, false, "User not found"@, None),
                Err(_) => user is Err && user->Err_0.says(
                    500,
                    false,
                    "Error retrieving user"@,
                    None,
                ),
            },
    {
        match found {
            Ok(Some(model)) => Ok(model),
            Ok(None) => Err(Controller::not_found("User not found")),
            Err(_) => Err(Controller::internal_server_error("Error retrieving user")),
        }
    }

    /// Whether a user whose stored role is `stored_type` may read another
    /// user's details: proctors and admins may. A stored role that is no
    /// role is answered with 400, a member with 401.
    pub fn details_access(stored_type: &str) -> (refusal: Option<Reply<()>>)
        ensures
            match role_named(stored_type@) {
                Some(UserType::Proctor) | Some(UserType::Admin) => refusal is None,
                Some(UserType::Member) => refusal is Some && refusal->0.says(
                    401,
                    false,
                    "Only proctors and admins can access user details"@,
                    None,
                ),
                None => refusal is Some && refusal->0.says(400, false, "Invalid user type"@, None),
            },
    {
        match UserType::parse(stored_type) {
            Some(UserType::Proctor) => None,
            Some(UserType::Admin) => None,
            Some(UserType::Member) => Some(
                Controller::unauthorized("Only proctors and admins can access user details"),
            ),
            None => Some(Controller::bad_request("Invalid user type")),
        }
    }
}

} // verus!
