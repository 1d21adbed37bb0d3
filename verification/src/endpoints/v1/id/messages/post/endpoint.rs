//! `POST /api/v1/{chat_id}/messages/`: adds a message to a chat and signals it on the SSE
//! stream. The author is the caller, never the body. Only the members of the chat (and the
//! administrators) may post; anyone else gets the same `404` as for an unknown chat.
use vstd::prelude::*;

use crate::database::chats::access::view::{ChatAccess, ChatAccessQueryView};
use crate::database::chats::add_message_to_chat::view::PostMessageInChatQueryView;
use crate::database::failure::DbFailure;
use crate::database::query::id_param;
use crate::endpoints::v1::id::access::{chat_access_outcome, require_chat_access, AccessDenied};
use crate::endpoints::v1::id::messages::post::view::{PostMessageResultView, PostMessageView};
use crate::sse::state::ChatEvent;

verus! {

#[derive(Debug, Clone, Copy, PartialEq, Eq, Structural)]
pub enum PosteMessageError {
    DatabaseError,
    UnknownChat,
}

impl PosteMessageError {
    /// The body of the error response.
    pub open spec fn text(self) -> Seq<char> {
        match self {
            PosteMessageError::DatabaseError => "An error occurred while accessing the database."@,
            PosteMessageError::UnknownChat => "Unknown chat."@,
        }
    }

    /// The HTTP status of the error response.
    pub open spec fn status(self) -> u16 {
        match self {
            PosteMessageError::DatabaseError => 500,
            PosteMessageError::UnknownChat => 404,
        }
    }

    pub fn to_string(&self) -> (s: String)
        ensures
            s@ == self.text(),
    {
        match self {
            PosteMessageError::DatabaseError => String::from_str(
                "An error occurred while accessing the database.",
            ),
            PosteMessageError::UnknownChat => String::from_str("Unknown chat."),
        }
    }

    pub fn status_code(&self) -> (code: u16)
        ensures
            code == self.status(),
    {
        match self {
            PosteMessageError::DatabaseError => 500,
            PosteMessageError::UnknownChat => 404,
        }
    }
}

/// The error answered for a failed access check.
pub open spec fn access_error(denied: AccessDenied) -> PosteMessageError {
    match denied {
        AccessDenied::NotFound => PosteMessageError::UnknownChat,
        AccessDenied::DatabaseError => PosteMessageError::DatabaseError,
    }
}

/// The error answered for a failed insertion: a broken foreign key means the chat is gone.
pub open spec fn insert_error(failure: DbFailure) -> PosteMessageError {
    match failure {
        DbFailure::ForeignKeyViolation(_) => PosteMessageError::UnknownChat,
        _ => PosteMessageError::DatabaseError,
    }
}

impl From<AccessDenied> for PosteMessageError {
    fn from(denied: AccessDenied) -> Self {
        match denied {
            AccessDenied::NotFound => PosteMessageError::UnknownChat,
            AccessDenied::DatabaseError => PosteMessageError::DatabaseError,
        }
    }
}

impl vstd::std_specs::convert::FromSpecImpl<AccessDenied> for PosteMessageError {
    open spec fn obeys_from_spec() -> bool {
        true
    }

    open spec fn from_spec(v: AccessDenied) -> Self {
        access_error(v)
    }
}

/// Where the route stands: the query it waits on, or its answer.
#[derive(Debug)]
pub enum PostMessageStep {
    /// Read whether the caller may see the chat.
    CheckAccess(ChatAccessQueryView),
    /// Insert the message, which returns its id.
    Insert(PostMessageInChatQueryView),
    /// Broadcast the event on the internal bus (whatever comes of it), then answer `200 OK`
    /// with the result.
    Publish(ChatEvent, PostMessageResultView),
    /// Answer with the error.
    Failed(PosteMessageError),
}

/// The first step of the route of `user_id` in `chat_id`: the access check.
pub fn post_message_start(chat_id: u64, user_id: u64) -> (step: PostMessageStep)
    ensures
        step matches PostMessageStep::CheckAccess(q) && q.params_view() == seq![
            id_param(chat_id),
            id_param(user_id),
        ],
{
    PostMessageStep::CheckAccess(ChatAccessQueryView::new(chat_id, user_id))
}

/// After the access check: a caller who may see the chat goes on to the insertion of the
/// message, written by them; anyone else gets the answer given for an unknown chat.
pub fn post_message_after_access(
    chat_id: u64,
    user_id: u64,
    view: &PostMessageView,
    reply: Result<ChatAccess, DbFailure>,
) -> (step: PostMessageStep)
    ensures
        match chat_access_outcome(reply) {
            Ok(_) => step matches PostMessageStep::Insert(q) && q.params_view().len() == 3
                && q.params_view()[0] == id_param(chat_id) && q.params_view()[1] == id_param(
                user_id,
            ) && q.params_view()[2] is Text && q.params_view()[2].text_value()
                == view.content_view(),
            Err(denied) => step == PostMessageStep::Failed(access_error(denied)),
        },
{
    match require_chat_access(reply) {
        Ok(_) => PostMessageStep::Insert(
            PostMessageInChatQueryView::new(chat_id, user_id, view.content()),
        ),
        Err(denied) => PostMessageStep::Failed(PosteMessageError::from(denied)),
    }
}

/// After the insertion: the id given to the message, and the event that tells the other
/// members that `user_id` posted it in `chat_id`.
pub fn trigger_post_message(
    chat_id: u64,
    user_id: u64,
    view: &PostMessageView,
    reply: Result<i64, DbFailure>,
) -> (step: PostMessageStep)
    ensures
        match reply {
            Ok(id) => step matches PostMessageStep::Publish(event, result) && event.chat_id
                == chat_id && event.sender_id == user_id && event.message@ == view.content_view()
                && result.id_view() == id as u64,
            Err(failure) => step == PostMessageStep::Failed(insert_error(failure)),
        },
{
    match reply {
        Ok(id) => {
            let event = ChatEvent {
                chat_id,
                sender_id: user_id,
                message: String::from_str(view.content()),
            };
            PostMessageStep::Publish(event, PostMessageResultView::new(id as u64))
        },
        Err(DbFailure::ForeignKeyViolation(_)) => PostMessageStep::Failed(
            PosteMessageError::UnknownChat,
        ),
        Err(_) => PostMessageStep::Failed(PosteMessageError::DatabaseError),
    }
}

} // verus!
