//! `PATCH /api/v1/{chat_id}/messages/{message_id}/`: replaces the content of a message. Only
//! the author of the message may edit it; administrators bypass the check. A caller who is not
//! a member of the chat gets the same `404` as for an unknown chat.
use vstd::prelude::*;

use crate::database::chats::access::view::{ChatAccess, ChatAccessQueryView};
use crate::database::chats::message_owner::view::MessageOwnerQueryView;
use crate::database::chats::patch_message_in_chat::view::PatchMessageQueryView;
use crate::database::failure::DbFailure;
use crate::database::query::{id_param, QueryParam};
use crate::endpoints::v1::id::access::{
    chat_access_outcome, message_author_outcome, require_chat_access, require_message_author,
    AccessDenied, MessageDenied,
};
use crate::endpoints::v1::id::messages::id::patch::view::PatchMessageView;
use crate::endpoints::v1::id::messages::id::MessagePathParams;

verus! {

#[derive(Debug, Clone, Copy, PartialEq, Eq, Structural)]
pub enum PatchMessageError {
    DatabaseError,
    UnknownEvent,
    UnknownChat,
    Forbidden,
}

impl PatchMessageError {
    /// The body of the error response.
    pub open spec fn text(self) -> Seq<char> {
        match self {
            PatchMessageError::Forbidden => "Only the author of a message can edit it."@,
            PatchMessageError::UnknownChat => "Unknown chat."@,
            PatchMessageError::DatabaseError => "An error occurred while accessing the database."@,
            PatchMessageError::UnknownEvent => "Unknown event."@,
        }
    }

    /// The HTTP status of the error response.
    pub open spec fn status(self) -> u16 {
        match self {
            PatchMessageError::Forbidden => 403,
            PatchMessageError::UnknownChat => 404,
            PatchMessageError::DatabaseError => 500,
            PatchMessageError::UnknownEvent => 400,
        }
    }

    pub fn to_string(&self) -> (s: String)
        ensures
            s@ == self.text(),
    {
        match self {
            PatchMessageError::Forbidden => String::from_str(
                "Only the author of a message can edit it.",
            ),
            PatchMessageError::UnknownChat => String::from_str("Unknown chat."),
            PatchMessageError::DatabaseError => String::from_str(
                "An error occurred while accessing the database.",
            ),
            PatchMessageError::UnknownEvent => String::from_str("Unknown event."),
        }
    }

    pub fn status_code(&self) -> (code: u16)
        ensures
            code == self.status(),
    {
        match self {
            PatchMessageError::Forbidden => 403,
            PatchMessageError::UnknownChat => 404,
            PatchMessageError::DatabaseError => 500,
            PatchMessageError::UnknownEvent => 400,
        }
    }
}

/// The error answered for a failed access check.
pub open spec fn access_error(denied: AccessDenied) -> PatchMessageError {
    match denied {
        AccessDenied::NotFound => PatchMessageError::UnknownChat,
        AccessDenied::DatabaseError => PatchMessageError::DatabaseError,
    }
}

/// The error answered for a failed authorship check.
pub open spec fn author_error(denied: MessageDenied) -> PatchMessageError {
    match denied {
        MessageDenied::NotFound => PatchMessageError::UnknownEvent,
        MessageDenied::Forbidden => PatchMessageError::Forbidden,
        MessageDenied::DatabaseError => PatchMessageError::DatabaseError,
    }
}

/// The error answered for a failed update.
pub open spec fn patch_error(failure: DbFailure) -> PatchMessageError {
    match failure {
        DbFailure::NotFound => PatchMessageError::UnknownEvent,
        _ => PatchMessageError::DatabaseError,
    }
}

impl From<AccessDenied> for PatchMessageError {
    fn from(denied: AccessDenied) -> Self {
        match denied {
            AccessDenied::NotFound => PatchMessageError::UnknownChat,
            AccessDenied::DatabaseError => PatchMessageError::DatabaseError,
        }
    }
}

impl vstd::std_specs::convert::FromSpecImpl<AccessDenied> for PatchMessageError {
    open spec fn obeys_from_spec() -> bool {
        true
    }

    open spec fn from_spec(v: AccessDenied) -> Self {
        access_error(v)
    }
}

impl From<MessageDenied> for PatchMessageError {
    fn from(denied: MessageDenied) -> Self {
        match denied {
            MessageDenied::NotFound => PatchMessageError::UnknownEvent,
            MessageDenied::Forbidden => PatchMessageError::Forbidden,
            MessageDenied::DatabaseError => PatchMessageError::DatabaseError,
        }
    }
}

impl vstd::std_specs::convert::FromSpecImpl<MessageDenied> for PatchMessageError {
    open spec fn obeys_from_spec() -> bool {
        true
    }

    open spec fn from_spec(v: MessageDenied) -> Self {
        author_error(v)
    }
}

/// Where the route stands: the query it waits on, or its answer.
#[derive(Debug)]
pub enum PatchMessageStep {
    /// Read whether the caller may see the chat.
    CheckAccess(ChatAccessQueryView),
    /// Read the author of the message; the caller's administrator flag rides along.
    CheckAuthor(MessageOwnerQueryView, bool),
    /// Replace the content of the message.
    Patch(PatchMessageQueryView),
    /// Answer: `200 OK` with an empty body on success.
    Done(Result<(), PatchMessageError>),
}

/// The first step of the route for `user_id`: the access check.
pub fn patch_message_start(params: &MessagePathParams, user_id: u64) -> (step: PatchMessageStep)
    ensures
        step matches PatchMessageStep::CheckAccess(q) && q.params_view() == seq![
            id_param(params.chat_id_view()),
            id_param(user_id),
        ],
{
    PatchMessageStep::CheckAccess(ChatAccessQueryView::new(params.chat_id(), user_id))
}

/// After the access check: a caller who may see the chat goes on to the authorship check;
/// anyone else gets the answer given for an unknown chat.
pub fn patch_message_after_access(
    params: &MessagePathParams,
    reply: Result<ChatAccess, DbFailure>,
) -> (step: PatchMessageStep)
    ensures
        match chat_access_outcome(reply) {
            Ok(is_admin) => step matches PatchMessageStep::CheckAuthor(q, a) && a == is_admin
                && q.params_view() == seq![
                QueryParam::I64(params.message_id_view() as i64),
                id_param(params.chat_id_view()),
            ],
            Err(denied) => step == PatchMessageStep::Done(Err(access_error(denied))),
        },
{
    match require_chat_access(reply) {
        Ok(is_admin) => PatchMessageStep::CheckAuthor(
            MessageOwnerQueryView::new(params.chat_id(), params.message_id()),
            is_admin,
        ),
        Err(denied) => PatchMessageStep::Done(Err(PatchMessageError::from(denied))),
    }
}

/// After the authorship check: the author, or an administrator, goes on to the update, with the
/// new content.
pub fn patch_message_after_author(
    params: &MessagePathParams,
    user_id: u64,
    is_admin: bool,
    view: &PatchMessageView,
    reply: Result<i32, DbFailure>,
) -> (step: PatchMessageStep)
    ensures
        match message_author_outcome(reply, user_id, is_admin) {
            Ok(()) => step matches PatchMessageStep::Patch(q) && q.params_view().len() == 2
                && q.params_view()[0] == id_param(params.message_id_view())
                && q.params_view()[1] is Text && q.params_view()[1].text_value()
                == view.content_view(),
            Err(denied) => step == PatchMessageStep::Done(Err(author_error(denied))),
        },        reply matches Ok(owner_id) ==> (step is Patch <==> (is_admin || owner_id as u64
            == user_id)),
{
    match require_message_author(reply, user_id, is_admin) {
        Ok(()) => PatchMessageStep::Patch(
            PatchMessageQueryView::new(params.message_id(), view.content()),
        ),
        Err(denied) => PatchMessageStep::Done(Err(PatchMessageError::from(denied))),
    }
}

/// After the update (which returns the id of the message, and no row when there is none): the
/// answer.
pub fn trigger_patch_message(reply: Result<i64, DbFailure>) -> (step: PatchMessageStep)
    ensures
        step == PatchMessageStep::Done(
            match reply {
                Ok(_) => Ok(()),
                Err(failure) => Err(patch_error(failure)),
            },
        ),
{
    match reply {
        Ok(_) => PatchMessageStep::Done(Ok(())),
        Err(DbFailure::NotFound) => PatchMessageStep::Done(Err(PatchMessageError::UnknownEvent)),
        Err(_) => PatchMessageStep::Done(Err(PatchMessageError::DatabaseError)),
    }
}

} // verus!
