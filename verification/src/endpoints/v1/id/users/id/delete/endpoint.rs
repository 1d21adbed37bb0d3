//! `DELETE /api/v1/{chat_id}/users/{user_id}/`: removes a member from a chat. Any member may
//! remove any member, themselves included; the chat goes away with its last member. Only the
//! members of the chat (and the administrators) may call it; anyone else gets the same `404` as
//! for an unknown chat.
use vstd::prelude::*;

use crate::database::chats::access::view::{ChatAccess, ChatAccessQueryView};
use crate::database::chats::delete_empty_chat::view::DeleteEmptyChatQueryView;
use crate::database::chats::remove_user_from_chat::view::RemoveMemberFromChatQueryView;
use crate::database::failure::DbFailure;
use crate::database::query::id_param;
use crate::endpoints::v1::id::access::{chat_access_outcome, require_chat_access, AccessDenied};
use crate::endpoints::v1::id::users::id::UsersPathParams;

verus! {

#[derive(Debug, Clone, Copy, PartialEq, Eq, Structural)]
pub enum RemoveUserFromChatError {
    DatabaseError,
    BadRequest,
    NotFound,
}

impl RemoveUserFromChatError {
    /// The body of the error response.
    pub open spec fn text(self) -> Seq<char> {
        match self {
            RemoveUserFromChatError::NotFound => "Unknown chat."@,
            RemoveUserFromChatError::DatabaseError =>
                "An error occurred while accessing the database."@,
            RemoveUserFromChatError::BadRequest => "Bad request."@,
        }
    }

    /// The HTTP status of the error response.
    pub open spec fn status(self) -> u16 {
        match self {
            RemoveUserFromChatError::NotFound => 404,
            RemoveUserFromChatError::DatabaseError => 500,
            RemoveUserFromChatError::BadRequest => 400,
        }
    }

    pub fn to_string(&self) -> (s: String)
        ensures
            s@ == self.text(),
    {
        match self {
            RemoveUserFromChatError::NotFound => String::from_str("Unknown chat."),
            RemoveUserFromChatError::DatabaseError => String::from_str(
                "An error occurred while accessing the database.",
            ),
            RemoveUserFromChatError::BadRequest => String::from_str("Bad request."),
        }
    }

    pub fn status_code(&self) -> (code: u16)
        ensures
            code == self.status(),
    {
        match self {
            RemoveUserFromChatError::NotFound => 404,
            RemoveUserFromChatError::DatabaseError => 500,
            RemoveUserFromChatError::BadRequest => 400,
        }
    }
}

/// The error answered for a failed access check.
pub open spec fn access_error(denied: AccessDenied) -> RemoveUserFromChatError {
    match denied {
        AccessDenied::NotFound => RemoveUserFromChatError::NotFound,
        AccessDenied::DatabaseError => RemoveUserFromChatError::DatabaseError,
    }
}

/// The error answered for a failed removal: no row means the user was not a member.
pub open spec fn remove_error(failure: DbFailure) -> RemoveUserFromChatError {
    match failure {
        DbFailure::NotFound => RemoveUserFromChatError::BadRequest,
        _ => RemoveUserFromChatError::DatabaseError,
    }
}

impl From<AccessDenied> for RemoveUserFromChatError {
    fn from(denied: AccessDenied) -> Self {
        match denied {
            AccessDenied::NotFound => RemoveUserFromChatError::NotFound,
            AccessDenied::DatabaseError => RemoveUserFromChatError::DatabaseError,
        }
    }
}

impl vstd::std_specs::convert::FromSpecImpl<AccessDenied> for RemoveUserFromChatError {
    open spec fn obeys_from_spec() -> bool {
        true
    }

    open spec fn from_spec(v: AccessDenied) -> Self {
        access_error(v)
    }
}

/// Where the route stands: the query it waits on, or its answer.
#[derive(Debug)]
pub enum RemoveUserFromChatStep {
    /// Read whether the caller may see the chat.
    CheckAccess(ChatAccessQueryView),
    /// Remove the member, which returns their id (no row when they were not a member).
    Remove(RemoveMemberFromChatQueryView),
    /// Delete the chat if nobody is left in it.
    DropIfEmpty(DeleteEmptyChatQueryView),
    /// Answer: `204 No Content` on success.
    Done(Result<(), RemoveUserFromChatError>),
}

/// The first step of the route of caller `caller_id`: the access check.
pub fn remove_user_from_chat_start(params: &UsersPathParams, caller_id: u64) -> (step:
    RemoveUserFromChatStep)
    ensures
        step matches RemoveUserFromChatStep::CheckAccess(q) && q.params_view() == seq![
            id_param(params.chat_id_view()),
            id_param(caller_id),
        ],
{
    RemoveUserFromChatStep::CheckAccess(ChatAccessQueryView::new(params.chat_id(), caller_id))
}

/// After the access check: a caller who may see the chat goes on to the removal of the member
/// of the path; anyone else gets the answer given for an unknown chat.
pub fn remove_user_from_chat_after_access(
    params: &UsersPathParams,
    reply: Result<ChatAccess, DbFailure>,
) -> (step: RemoveUserFromChatStep)
    ensures
        match chat_access_outcome(reply) {
            Ok(_) => step matches RemoveUserFromChatStep::Remove(q) && q.params_view() == seq![
                id_param(params.chat_id_view()),
                id_param(params.user_id_view()),
            ],
            Err(denied) => step == RemoveUserFromChatStep::Done(Err(access_error(denied))),
        },
{
    match require_chat_access(reply) {
        Ok(_) => RemoveUserFromChatStep::Remove(
            RemoveMemberFromChatQueryView::new(params.chat_id(), params.user_id()),
        ),
        Err(denied) => RemoveUserFromChatStep::Done(Err(RemoveUserFromChatError::from(denied))),
    }
}

/// After the removal: a chat lives as long as it has members, so a removal is always followed
/// by the deletion of the chat if it is now empty.
pub fn trigger_remove_user_from_chat(
    params: &UsersPathParams,
    reply: Result<i32, DbFailure>,
) -> (step: RemoveUserFromChatStep)
    ensures
        match reply {
            Ok(_) => step matches RemoveUserFromChatStep::DropIfEmpty(q) && q.params_view()
                == seq![id_param(params.chat_id_view())],
            Err(failure) => step == RemoveUserFromChatStep::Done(Err(remove_error(failure))),
        },
{
    match reply {
        Ok(_) => RemoveUserFromChatStep::DropIfEmpty(DeleteEmptyChatQueryView::new(params.chat_id())),
        Err(DbFailure::NotFound) => RemoveUserFromChatStep::Done(
            Err(RemoveUserFromChatError::BadRequest),
        ),
        Err(_) => RemoveUserFromChatStep::Done(Err(RemoveUserFromChatError::DatabaseError)),
    }
}

/// After the deletion of the chat if empty: the answer.
pub fn remove_user_from_chat_after_drop(reply: Result<(), DbFailure>) -> (step:
    RemoveUserFromChatStep)
    ensures
        step == RemoveUserFromChatStep::Done(
            match reply {
                Ok(_) => Ok(()),
                Err(_) => Err(RemoveUserFromChatError::DatabaseError),
            },
        ),
{
    match reply {
        Ok(_) => RemoveUserFromChatStep::Done(Ok(())),
        Err(_) => RemoveUserFromChatStep::Done(Err(RemoveUserFromChatError::DatabaseError)),
    }
}

} // verus!
