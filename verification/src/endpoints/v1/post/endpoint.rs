//! `POST /api/v1/`: creates a chat and makes the listed users and the caller its members. The
//! caller is added anyway: listing them, or listing a user twice, makes the addition of the
//! members fail with `500`. When the members cannot be added, the new chat is deleted.
use vstd::prelude::*;

use crate::database::chats::add_users_to_chat::view::AddMembersToChatQueryView;
use crate::database::chats::create_chat::view::CreateChatQueryView;
use crate::database::chats::delete_chat::view::DeleteChatQueryView;
use crate::database::failure::DbFailure;
use crate::database::query::{id_param, QueryParam};
use crate::endpoints::v1::post::view::{CreateChatResultView, CreateChatView};
use crate::text::{copy_ids, id_list};

verus! {

#[derive(Debug, Clone, Copy, PartialEq, Eq, Structural)]
pub enum CreateChatError {
    DatabaseError,
    UnknownMember,
}

impl CreateChatError {
    /// The body of the error response.
    pub open spec fn text(self) -> Seq<char> {
        match self {
            CreateChatError::DatabaseError => "An error occurred while accessing the database."@,
            CreateChatError::UnknownMember => "`members` contains an unknown user."@,
        }
    }

    /// The HTTP status of the error response.
    pub open spec fn status(self) -> u16 {
        match self {
            CreateChatError::DatabaseError => 500,
            CreateChatError::UnknownMember => 400,
        }
    }

    pub fn to_string(&self) -> (s: String)
        ensures
            s@ == self.text(),
    {
        match self {
            CreateChatError::DatabaseError => String::from_str(
                "An error occurred while accessing the database.",
            ),
            CreateChatError::UnknownMember => String::from_str(
                "`members` contains an unknown user.",
            ),
        }
    }

    pub fn status_code(&self) -> (code: u16)
        ensures
            code == self.status(),
    {
        match self {
            CreateChatError::DatabaseError => 500,
            CreateChatError::UnknownMember => 400,
        }
    }
}

/// The error answered when the members cannot be added: a broken foreign key means an unknown
/// user.
pub open spec fn members_error(failure: DbFailure) -> CreateChatError {
    match failure {
        DbFailure::ForeignKeyViolation(_) => CreateChatError::UnknownMember,
        _ => CreateChatError::DatabaseError,
    }
}

/// Where the route stands: the query it waits on, or its answer.
#[derive(Debug)]
pub enum CreateChatStep {
    /// Insert the chat, which returns its id.
    Create(CreateChatQueryView),
    /// Make the members members of the new chat of the given id.
    AddMembers(AddMembersToChatQueryView, u64),
    /// Delete the new chat, whose members could not be added, then answer the error.
    DropChat(DeleteChatQueryView, CreateChatError),
    /// Answer: `200 OK` with the id of the chat on success.
    Done(Result<CreateChatResultView, CreateChatError>),
}

/// The first step of the route: the insertion of a direct conversation titled with the name.
pub fn create_chat_start(view: &CreateChatView) -> (step: CreateChatStep)
    ensures
        step matches CreateChatStep::Create(q) && q.params_view().len() == 2
            && q.params_view()[0] is Text && q.params_view()[0].text_value() == view.name_view()
            && q.params_view()[1] == QueryParam::OptionI32(None),
{
    CreateChatStep::Create(CreateChatQueryView::new(view.name(), None))
}

/// After the insertion of the chat: its members, the listed ones as given followed by creator
/// `user_id`. Nothing is sorted nor deduplicated: a listed creator or a duplicate makes the
/// insertion break the (conversation, user) key, and the route then answers `500`.
pub fn create_chat_after_insert(
    user_id: u64,
    view: &CreateChatView,
    reply: Result<i32, DbFailure>,
) -> (step: CreateChatStep)
    ensures
        match reply {
            Ok(id) => step matches CreateChatStep::AddMembers(q, chat_id) && chat_id == id as u64
                && q.params_view().len() == 2 && q.params_view()[0] == id_param(chat_id)
                && q.params_view()[1] is Text && q.params_view()[1].text_value() == id_list(
                view.members_view().push(user_id),
            ),
            Err(_) => step matches CreateChatStep::Done(Err(e)) && e
                == CreateChatError::DatabaseError,
        },
{
    match reply {
        Ok(id) => {
            let chat_id = id as u64;
            let mut members = copy_ids(view.members());
            members.push(user_id);
            let query = AddMembersToChatQueryView::new(chat_id, members);
            CreateChatStep::AddMembers(query, chat_id)
        },
        Err(_) => CreateChatStep::Done(Err(CreateChatError::DatabaseError)),
    }
}

/// After the insertion of the members: the id of the chat, or, when they could not be added,
/// the deletion of the chat, carrying the error to answer.
pub fn trigger_create_chat(chat_id: u64, reply: Result<(), DbFailure>) -> (step: CreateChatStep)
    ensures
        match reply {
            Ok(_) => step matches CreateChatStep::Done(Ok(r)) && r.id_view() == chat_id,
            Err(failure) => step matches CreateChatStep::DropChat(q, e) && q.params_view()
                == seq![id_param(chat_id)] && e == members_error(failure),
        },
{
    match reply {
        Ok(_) => CreateChatStep::Done(Ok(CreateChatResultView::new(chat_id))),
        Err(DbFailure::ForeignKeyViolation(_)) => CreateChatStep::DropChat(
            DeleteChatQueryView::new(chat_id),
            CreateChatError::UnknownMember,
        ),
        Err(_) => CreateChatStep::DropChat(
            DeleteChatQueryView::new(chat_id),
            CreateChatError::DatabaseError,
        ),
    }
}

/// After the deletion of the chat (whatever came of it): the error carried along.
pub fn create_chat_after_drop(error: CreateChatError) -> (step: CreateChatStep)
    ensures
        step matches CreateChatStep::Done(Err(e)) && e == error,
{
    CreateChatStep::Done(Err(error))
}

} // verus!
