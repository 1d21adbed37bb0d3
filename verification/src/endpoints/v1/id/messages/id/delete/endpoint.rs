//! `DELETE /api/v1/{chat_id}/messages/{message_id}/`: deletes a message of a chat. Only the
//! author of the message may delete it; administrators bypass the check.
use vstd::prelude::*;

use crate::database::chats::access::view::{ChatAccess, ChatAccessQueryView};
use crate::database::chats::delete_message_from_chat::view::DeleteMessageQueryView;
use crate::database::chats::message_owner::view::MessageOwnerQueryView;
use crate::database::failure::DbFailure;
use crate::database::query::{id_param, QueryParam};
use crate::endpoints::v1::id::access::{
    chat_access_outcome, message_author_outcome, require_chat_access, require_message_author,
    AccessDenied, MessageDenied,
};
use crate::endpoints::v1::id::messages::id::MessagePathParams;

verus! {

#[derive(Debug, Clone, Copy, PartialEq, Eq, Structural)]
pub enum DeleteMessageError {
    DatabaseError,
    UnknownMessage,
    Forbidden,
}

impl DeleteMessageError {
    /// The body of the error response.
    pub open spec fn text(self) -> Seq<char> {
        match self {
            DeleteMessageError::Forbidden => "Only the author of a message can delete it."@,
            DeleteMessageError::DatabaseError => "An error occurred while accessing the database."@,
            DeleteMessageError::UnknownMessage => "Unknown message."@,
        }
    }

    /// The HTTP status of the error response.
    pub open spec fn status(self) -> u16 {
        match self {
            DeleteMessageError::Forbidden => 403,
            DeleteMessageError::DatabaseError => 500,
            DeleteMessageError::UnknownMessage => 404,
        }
    }

    pub fn to_string(&self) -> (s: String)
        ensures
            s@ == self.text(),
    {
        match self {
            DeleteMessageError::Forbidden => String::from_str(
                "Only the author of a message can delete it.",
            ),
            DeleteMessageError::DatabaseError => String::from_str(
                "An error occurred while accessing the database.",
            ),
            DeleteMessageError::UnknownMessage => String::from_str("Unknown message."),
        }
    }

    pub fn status_code(&self) -> (code: u16)
        ensures
            code == self.status(),
    {
        match self {
            DeleteMessageError::Forbidden => 403,
            DeleteMessageError::DatabaseError => 500,
            DeleteMessageError::UnknownMessage => 404,
        }
    }
}

/// The error answered for a failed access check.
pub open spec fn access_error(denied: AccessDenied) -> DeleteMessageError {
    match denied {
        AccessDenied::NotFound => DeleteMessageError::UnknownMessage,
        AccessDenied::DatabaseError => DeleteMessageError::DatabaseError,
    }
}

/// The error answered for a failed authorship check.
pub open spec fn author_error(denied: MessageDenied) -> DeleteMessageError {
    match denied {
        MessageDenied::NotFound => DeleteMessageError::UnknownMessage,
        MessageDenied::Forbidden => DeleteMessageError::Forbidden,
        MessageDenied::DatabaseError => DeleteMessageError::DatabaseError,
    }
}

/// The error answered for a failed deletion.
pub open spec fn delete_error(failure: DbFailure) -> DeleteMessageError {
    match failure {
        DbFailure::NotFound => DeleteMessageError::UnknownMessage,
        _ => DeleteMessageError::DatabaseError,
    }
}

impl From<AccessDenied> for DeleteMessageError {
    fn from(denied: AccessDenied) -> Self {
        match denied {
            AccessDenied::NotFound => DeleteMessageError::UnknownMessage,
            AccessDenied::DatabaseError => DeleteMessageError::DatabaseError,
        }
    }
}

impl vstd::std_specs::convert::FromSpecImpl<AccessDenied> for DeleteMessageError {
    open spec fn obeys_from_spec() -> bool {
        true
    }

    open spec fn from_spec(v: AccessDenied) -> Self {
        access_error(v)
    }
}

impl From<MessageDenied> for DeleteMessageError {
    fn from(denied: MessageDenied) -> Self {
        match denied {
            MessageDenied::NotFound => DeleteMessageError::UnknownMessage,
            MessageDenied::Forbidden => DeleteMessageError::Forbidden,
            MessageDenied::DatabaseError => DeleteMessageError::DatabaseError,
        }
    }
}

impl vstd::std_specs::convert::FromSpecImpl<MessageDenied> for DeleteMessageError {
    open spec fn obeys_from_spec() -> bool {
        true
    }

    open spec fn from_spec(v: MessageDenied) -> Self {
        author_error(v)
    }
}

/// Where the route stands: the query it waits on, or its answer.
#[derive(Debug)]
pub enum DeleteMessageStep {
    /// Read whether the caller may see the chat.
    CheckAccess(ChatAccessQueryView),
    /// Read the author of the message; the caller's administrator flag rides along.
    CheckAuthor(MessageOwnerQueryView, bool),
    /// Delete the message.
    Delete(DeleteMessageQueryView),
    /// Answer: `204 No Content` on success.
    Done(Result<(), DeleteMessageError>),
}

/// The first step of the route for `user_id`: the access check.
pub fn delete_message_start(params: &MessagePathParams, user_id: u64) -> (step: DeleteMessageStep)
    ensures
        step matches DeleteMessageStep::CheckAccess(q) && q.params_view() == seq![
            id_param(params.chat_id_view()),
            id_param(user_id),
        ],
{
    DeleteMessageStep::CheckAccess(ChatAccessQueryView::new(params.chat_id(), user_id))
}

/// After the access check: a caller who may see the chat goes on to the authorship check;
/// anyone else gets the answer given for an unknown message.
pub fn delete_message_after_access(
    params: &MessagePathParams,
    reply: Result<ChatAccess, DbFailure>,
) -> (step: DeleteMessageStep)
    ensures
        match chat_access_outcome(reply) {
            Ok(is_admin) => step matches DeleteMessageStep::CheckAuthor(q, a) && a == is_admin
                && q.params_view() == seq![
                QueryParam::I64(params.message_id_view() as i64),
                id_param(params.chat_id_view()),
            ],
            Err(denied) => step == DeleteMessageStep::Done(Err(access_error(denied))),
        },
{
    match require_chat_access(reply) {
        Ok(is_admin) => DeleteMessageStep::CheckAuthor(
            MessageOwnerQueryView::new(params.chat_id(), params.message_id()),
            is_admin,
        ),
        Err(denied) => DeleteMessageStep::Done(Err(DeleteMessageError::from(denied))),
    }
}

/// After the authorship check: the author, or an administrator, goes on to the deletion.
pub fn delete_message_after_author(
    params: &MessagePathParams,
    user_id: u64,
    is_admin: bool,
    reply: Result<i32, DbFailure>,
) -> (step: DeleteMessageStep)
    ensures
        match message_author_outcome(reply, user_id, is_admin) {
            Ok(()) => step matches DeleteMessageStep::Delete(q) && q.params_view() == seq![
                id_param(params.message_id_view()),
            ],
            Err(denied) => step == DeleteMessageStep::Done(Err(author_error(denied))),
        },        reply matches Ok(owner_id) ==> (step is Delete <==> (is_admin || owner_id as u64
            == user_id)),
{
    match require_message_author(reply, user_id, is_admin) {
        Ok(()) => DeleteMessageStep::Delete(DeleteMessageQueryView::new(params.message_id())),
        Err(denied) => DeleteMessageStep::Done(Err(DeleteMessageError::from(denied))),
    }
}

/// After the deletion (which returns the id of the deleted message, and no row when there is
/// none): the answer.
pub fn trigger_delete_message(reply: Result<i64, DbFailure>) -> (step: DeleteMessageStep)
    ensures
        step == DeleteMessageStep::Done(
            match reply {
                Ok(_) => Ok(()),
                Err(failure) => Err(delete_error(failure)),
            },
        ),
{
    match reply {
        Ok(_) => DeleteMessageStep::Done(Ok(())),
        Err(DbFailure::NotFound) => DeleteMessageStep::Done(Err(DeleteMessageError::UnknownMessage)),
        Err(_) => DeleteMessageStep::Done(Err(DeleteMessageError::DatabaseError)),
    }
}

} // verus!
