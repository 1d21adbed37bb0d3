//! `DELETE /api/v1/{chat_id}/`: deletes a chat, its messages and its memberships. Only an
//! administrator may delete a chat: its members never delete it directly (it goes away with its
//! last member), and a caller who may not see the chat is told that it is unknown.
use vstd::prelude::*;

use crate::database::chats::access::view::{ChatAccess, ChatAccessQueryView};
use crate::database::chats::delete_chat::view::DeleteChatQueryView;
use crate::database::failure::DbFailure;
use crate::database::query::id_param;
use crate::endpoints::v1::id::access::{chat_access_outcome, require_chat_access, AccessDenied};

verus! {

#[derive(Debug, Clone, Copy, PartialEq, Eq, Structural)]
pub enum DeleteChatError {
    DatabaseError,
    /// The caller may see the chat but is not an administrator.
    Forbidden,
    NothingToDelete,
    UnknownEvent,
}

impl DeleteChatError {
    /// The body of the error response.
    pub open spec fn text(self) -> Seq<char> {
        match self {
            DeleteChatError::DatabaseError => "An error occurred while accessing the database."@,
            DeleteChatError::Forbidden => "Only an administrator can delete a chat."@,
            DeleteChatError::NothingToDelete => "Nothing to delete."@,
            DeleteChatError::UnknownEvent => "Unknown event."@,
        }
    }

    /// The HTTP status of the error response.
    pub open spec fn status(self) -> u16 {
        match self {
            DeleteChatError::DatabaseError => 500,
            DeleteChatError::Forbidden => 403,
            DeleteChatError::NothingToDelete => 200,
            DeleteChatError::UnknownEvent => 404,
        }
    }

    pub fn to_string(&self) -> (s: String)
        ensures
            s@ == self.text(),
    {
        match self {
            DeleteChatError::DatabaseError => String::from_str(
                "An error occurred while accessing the database.",
            ),
            DeleteChatError::Forbidden => String::from_str(
                "Only an administrator can delete a chat.",
            ),
            DeleteChatError::NothingToDelete => String::from_str("Nothing to delete."),
            DeleteChatError::UnknownEvent => String::from_str("Unknown event."),
        }
    }

    pub fn status_code(&self) -> (code: u16)
        ensures
            code == self.status(),
    {
        match self {
            DeleteChatError::DatabaseError => 500,
            DeleteChatError::Forbidden => 403,
            DeleteChatError::NothingToDelete => 200,
            DeleteChatError::UnknownEvent => 404,
        }
    }
}

/// The answer of the access check for the deletion: an administrator may go on; a member who is
/// not one is forbidden; anyone else is told that the chat is unknown.
pub open spec fn delete_access_error(outcome: Result<bool, AccessDenied>) -> Option<
    DeleteChatError,
> {
    match outcome {
        Ok(true) => None,
        Ok(false) => Some(DeleteChatError::Forbidden),
        Err(AccessDenied::NotFound) => Some(DeleteChatError::UnknownEvent),
        Err(AccessDenied::DatabaseError) => Some(DeleteChatError::DatabaseError),
    }
}

/// Where the route stands: the query it waits on, or its answer.
#[derive(Debug)]
pub enum DeleteChatStep {
    /// Read whether the caller may see the chat, and whether they are an administrator.
    CheckAccess(ChatAccessQueryView),
    /// Delete the chat; [`trigger_delete_chat`] gives the answer.
    Delete(DeleteChatQueryView),
    /// Answer without deleting anything.
    Done(Result<(), DeleteChatError>),
}

/// The first step of the route for `user_id` on `chat_id`: the access check.
pub fn delete_chat_start(chat_id: u64, user_id: u64) -> (step: DeleteChatStep)
    ensures
        step matches DeleteChatStep::CheckAccess(q) && q.params_view() == seq![
            id_param(chat_id),
            id_param(user_id),
        ],
{
    DeleteChatStep::CheckAccess(ChatAccessQueryView::new(chat_id, user_id))
}

/// After the access check: only an administrator goes on to the deletion; for anyone else the
/// chat is left as it is.
pub fn delete_chat_after_access(chat_id: u64, reply: Result<ChatAccess, DbFailure>) -> (step:
    DeleteChatStep)
    ensures
        match delete_access_error(chat_access_outcome(reply)) {
            None => step matches DeleteChatStep::Delete(q) && q.params_view() == seq![
                id_param(chat_id),
            ],
            Some(e) => step == DeleteChatStep::Done(Err(e)),
        },
{
    match require_chat_access(reply) {
        Ok(true) => {
            let q = DeleteChatQueryView::new(chat_id);
            assert(q.params_view() == seq![id_param(chat_id)]);
            DeleteChatStep::Delete(q)
        },
        Ok(false) => DeleteChatStep::Done(Err(DeleteChatError::Forbidden)),
        Err(AccessDenied::NotFound) => DeleteChatStep::Done(Err(DeleteChatError::UnknownEvent)),
        Err(AccessDenied::DatabaseError) => DeleteChatStep::Done(
            Err(DeleteChatError::DatabaseError),
        ),
    }
}

/// The error answered for a failed deletion: no row means there is no such chat.
pub open spec fn delete_error(failure: DbFailure) -> DeleteChatError {
    match failure {
        DbFailure::NotFound => DeleteChatError::UnknownEvent,
        _ => DeleteChatError::DatabaseError,
    }
}

/// The answer of the route to the deletion by `DeleteChatQueryView::new(chat_id)`, which
/// returns the id of the deleted chat: `204 No Content` on success.
pub fn trigger_delete_chat(reply: Result<i32, DbFailure>) -> (r: Result<(), DeleteChatError>)
    ensures
        r == match reply {
            Ok(_) => Ok(()),
            Err(failure) => Err(delete_error(failure)),
        },
{
    match reply {
        Ok(_) => Ok(()),
        Err(DbFailure::NotFound) => Err(DeleteChatError::UnknownEvent),
        Err(_) => Err(DeleteChatError::DatabaseError),
    }
}

} // verus!
