//! `GET /api/v1/{chat_id}/users/`: the Core API ids of the members of a chat. Only the members
//! of the chat (and the administrators) may call it; anyone else gets the same `404` as for an
//! unknown chat.
use vstd::prelude::*;

use crate::database::chats::access::view::{ChatAccess, ChatAccessQueryView};
use crate::database::chats::get_chat_users::view::GetChatMembersQueryView;
use crate::database::failure::DbFailure;
use crate::database::query::id_param;
use crate::endpoints::v1::id::access::{chat_access_outcome, require_chat_access, AccessDenied};
use crate::endpoints::v1::id::users::get::view::{GetUsersView, User};

verus! {

#[derive(Debug, Clone, Copy, PartialEq, Eq, Structural)]
pub enum GetChatUsersError {
    BadRequest,
    DatabaseError,
    NotFound,
}

impl GetChatUsersError {
    /// The body of the error response.
    pub open spec fn text(self) -> Seq<char> {
        match self {
            GetChatUsersError::NotFound => "Unknown chat."@,
            GetChatUsersError::DatabaseError => "An error occurred while accessing the database."@,
            GetChatUsersError::BadRequest => "Bad request."@,
        }
    }

    /// The HTTP status of the error response.
    pub open spec fn status(self) -> u16 {
        match self {
            GetChatUsersError::NotFound => 404,
            GetChatUsersError::DatabaseError => 500,
            GetChatUsersError::BadRequest => 400,
        }
    }

    pub fn to_string(&self) -> (s: String)
        ensures
            s@ == self.text(),
    {
        match self {
            GetChatUsersError::NotFound => String::from_str("Unknown chat."),
            GetChatUsersError::DatabaseError => String::from_str(
                "An error occurred while accessing the database.",
            ),
            GetChatUsersError::BadRequest => String::from_str("Bad request."),
        }
    }

    pub fn status_code(&self) -> (code: u16)
        ensures
            code == self.status(),
    {
        match self {
            GetChatUsersError::NotFound => 404,
            GetChatUsersError::DatabaseError => 500,
            GetChatUsersError::BadRequest => 400,
        }
    }
}

/// The error answered for a failed access check.
pub open spec fn access_error(denied: AccessDenied) -> GetChatUsersError {
    match denied {
        AccessDenied::NotFound => GetChatUsersError::NotFound,
        AccessDenied::DatabaseError => GetChatUsersError::DatabaseError,
    }
}

impl From<AccessDenied> for GetChatUsersError {
    fn from(denied: AccessDenied) -> Self {
        match denied {
            AccessDenied::NotFound => GetChatUsersError::NotFound,
            AccessDenied::DatabaseError => GetChatUsersError::DatabaseError,
        }
    }
}

impl vstd::std_specs::convert::FromSpecImpl<AccessDenied> for GetChatUsersError {
    open spec fn obeys_from_spec() -> bool {
        true
    }

    open spec fn from_spec(v: AccessDenied) -> Self {
        access_error(v)
    }
}

/// Where the route stands: the query it waits on, or its answer.
#[derive(Debug)]
pub enum GetChatUsersStep {
    /// Read whether the caller may see the chat.
    CheckAccess(ChatAccessQueryView),
    /// Read the ids of the members.
    ListMembers(GetChatMembersQueryView),
    /// Answer: `200 OK` with the members on success.
    Done(Result<GetUsersView, GetChatUsersError>),
}

/// The first step of the route for `user_id` in `chat_id`: the access check.
pub fn get_chat_users_start(chat_id: u64, user_id: u64) -> (step: GetChatUsersStep)
    ensures
        step matches GetChatUsersStep::CheckAccess(q) && q.params_view() == seq![
            id_param(chat_id),
            id_param(user_id),
        ],
{
    GetChatUsersStep::CheckAccess(ChatAccessQueryView::new(chat_id, user_id))
}

/// After the access check: a caller who may see the chat goes on to the list of members; anyone
/// else gets the answer given for an unknown chat.
pub fn get_chat_users_after_access(chat_id: u64, reply: Result<ChatAccess, DbFailure>) -> (step:
    GetChatUsersStep)
    ensures
        match chat_access_outcome(reply) {
            Ok(_) => step matches GetChatUsersStep::ListMembers(q) && q.chat_id_view() == chat_id,
            Err(denied) => step matches GetChatUsersStep::Done(Err(e)) && e == access_error(
                denied,
            ),
        },
{
    match require_chat_access(reply) {
        Ok(_) => GetChatUsersStep::ListMembers(GetChatMembersQueryView::new(chat_id)),
        Err(denied) => GetChatUsersStep::Done(Err(GetChatUsersError::from(denied))),
    }
}

/// After the list: the members, in the order the database gave them, each id read as a `u64`.
pub fn trigger_get_chat_users(reply: Result<Vec<i32>, DbFailure>) -> (step: GetChatUsersStep)
    ensures
        match reply {
            Ok(ids) => step matches GetChatUsersStep::Done(Ok(v)) && v.users_view().len()
                == ids@.len() && forall|i: int|
                0 <= i < ids@.len() ==> #[trigger] v.users_view()[i].id_view() == ids@[i] as u64,
            Err(_) => step matches GetChatUsersStep::Done(Err(e)) && e
                == GetChatUsersError::DatabaseError,
        },
{
    match reply {
        Ok(ids) => {
            let mut users: Vec<User> = Vec::new();
            for i in 0..ids.len()
                invariant
                    users@.len() == i,
                    forall|k: int| 0 <= k < i ==> #[trigger] users@[k].id_view() == ids@[k] as u64,
            {
                users.push(User::new(ids[i] as u64));
            }
            GetChatUsersStep::Done(Ok(GetUsersView::new(users)))
        },
        Err(_) => GetChatUsersStep::Done(Err(GetChatUsersError::DatabaseError)),
    }
}

} // verus!
