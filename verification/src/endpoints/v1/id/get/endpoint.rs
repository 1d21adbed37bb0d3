//! `GET /api/v1/{chat_id}/`: the messages of a chat, oldest first. It does not touch the
//! caller's unread counter. Only the members of the chat (and the administrators) may read it;
//! anyone else gets the same `Unknown chat.` as for a chat that does not exist.
use vstd::prelude::*;

use crate::database::chats::access::view::{ChatAccess, ChatAccessQueryView};
use crate::database::chats::get_chat::view::{GetChatQueryView, Message};
use crate::database::failure::DbFailure;
use crate::database::query::id_param;
use crate::endpoints::v1::id::access::{chat_access_outcome, require_chat_access, AccessDenied};
use crate::endpoints::v1::id::get::view::GetChatResultView;

verus! {

#[derive(Debug, Clone, Copy, PartialEq, Eq, Structural)]
pub enum GetChatError {
    DatabaseError,
    UnknownChat,
}

impl GetChatError {
    /// The body of the error response.
    pub open spec fn text(self) -> Seq<char> {
        match self {
            GetChatError::DatabaseError => "An error occurred while accessing the database."@,
            GetChatError::UnknownChat => "Unknown chat."@,
        }
    }

    /// The HTTP status of the error response.
    pub open spec fn status(self) -> u16 {
        match self {
            GetChatError::DatabaseError => 500,
            GetChatError::UnknownChat => 400,
        }
    }

    pub fn to_string(&self) -> (s: String)
        ensures
            s@ == self.text(),
    {
        match self {
            GetChatError::DatabaseError => String::from_str(
                "An error occurred while accessing the database.",
            ),
            GetChatError::UnknownChat => String::from_str("Unknown chat."),
        }
    }

    pub fn status_code(&self) -> (code: u16)
        ensures
            code == self.status(),
    {
        match self {
            GetChatError::DatabaseError => 500,
            GetChatError::UnknownChat => 400,
        }
    }
}

/// The error answered for a failed access check: a caller who may not see the chat is told that
/// it is unknown.
pub open spec fn access_error(denied: AccessDenied) -> GetChatError {
    match denied {
        AccessDenied::NotFound => GetChatError::UnknownChat,
        AccessDenied::DatabaseError => GetChatError::DatabaseError,
    }
}

/// Where the route stands: the query it waits on, or its answer.
#[derive(Debug)]
pub enum GetChatStep {
    /// Read whether the caller may see the chat.
    CheckAccess(ChatAccessQueryView),
    /// Read the messages of the chat; [`trigger_get_chat`] gives the answer.
    ReadMessages(GetChatQueryView),
    /// Answer without reading the messages: the caller may not see the chat, or the check failed.
    Done(Result<GetChatResultView, GetChatError>),
}

/// The first step of the route for `user_id` in `chat_id`: the access check.
pub fn get_chat_start(chat_id: u64, user_id: u64) -> (step: GetChatStep)
    ensures
        step matches GetChatStep::CheckAccess(q) && q.params_view() == seq![
            id_param(chat_id),
            id_param(user_id),
        ],
{
    GetChatStep::CheckAccess(ChatAccessQueryView::new(chat_id, user_id))
}

/// After the access check: a caller who may see the chat goes on to its messages; anyone else
/// gets the answer given for an unknown chat, and no message is read.
pub fn get_chat_after_access(chat_id: u64, reply: Result<ChatAccess, DbFailure>) -> (step:
    GetChatStep)
    ensures
        match chat_access_outcome(reply) {
            Ok(_) => step matches GetChatStep::ReadMessages(q) && q.params_view() == seq![
                id_param(chat_id),
            ],
            Err(denied) => step matches GetChatStep::Done(Err(e)) && e == access_error(denied),
        },
{
    match require_chat_access(reply) {
        Ok(_) => {
            let q = GetChatQueryView::new(chat_id);
            assert(q.params_view() == seq![id_param(chat_id)]);
            GetChatStep::ReadMessages(q)
        },
        Err(AccessDenied::NotFound) => GetChatStep::Done(Err(GetChatError::UnknownChat)),
        Err(AccessDenied::DatabaseError) => GetChatStep::Done(Err(GetChatError::DatabaseError)),
    }
}

/// The answer of the route to the messages read by `GetChatQueryView::new(chat_id)`.
pub fn trigger_get_chat(reply: Result<Vec<Message>, DbFailure>) -> (r: Result<
    GetChatResultView,
    GetChatError,
>)
    ensures
        match reply {
            Ok(messages) => r matches Ok(v) && v.messages_view().len() == messages@.len()
                && forall|i: int|
                0 <= i < messages@.len() ==> #[trigger] v.messages_view()[i].shows(messages@[i]),
            Err(_) => r matches Err(e) && e == GetChatError::DatabaseError,
        },
        reply matches Ok(messages) ==> r matches Ok(v) && forall|i: int|
            0 <= i < messages@.len() ==> (#[trigger] v.messages_view()[i]).content_view()
                == messages@[i].content@,
{
    match reply {
        Ok(messages) => Ok(GetChatResultView::from(messages)),
        Err(_) => Err(GetChatError::DatabaseError),
    }
}

} // verus!
