//! `POST /api/v1/{chat_id}/users/`: makes one or more users members of a chat in a single call.
//! Only the members of the chat (and the administrators) may call it; anyone else gets the same
//! `404` as for an unknown chat.
use vstd::prelude::*;

use crate::database::chats::access::view::{ChatAccess, ChatAccessQueryView};
use crate::database::chats::add_users_to_chat::view::AddMembersToChatQueryView;
use crate::database::failure::DbFailure;
use crate::database::query::id_param;
use crate::endpoints::v1::id::access::{chat_access_outcome, require_chat_access, AccessDenied};
use crate::endpoints::v1::id::users::post::view::{AddUsersToChat, AddUsersToChatResultView};
use crate::text::{contains_text, copy_ids, has_infix, id_list, lemma_id_list_nonempty};

verus! {

#[derive(Debug, Clone, Copy, PartialEq, Eq, Structural)]
pub enum AddUsersToChatError {
    DatabaseError,
    UnknownChat,
    UnknownUser,
    AlreadyMember,
}

impl AddUsersToChatError {
    /// The body of the error response.
    pub open spec fn text(self) -> Seq<char> {
        match self {
            AddUsersToChatError::DatabaseError =>
                "An error occurred while accessing the database."@,
            AddUsersToChatError::UnknownChat => "Unknown chat."@,
            AddUsersToChatError::UnknownUser => "`users_id` contains an unknown user."@,
            AddUsersToChatError::AlreadyMember =>
                "A user of `users_id` is already a member of this chat."@,
        }
    }

    /// The HTTP status of the error response.
    pub open spec fn status(self) -> u16 {
        match self {
            AddUsersToChatError::DatabaseError => 500,
            AddUsersToChatError::UnknownChat => 404,
            AddUsersToChatError::UnknownUser => 400,
            AddUsersToChatError::AlreadyMember => 409,
        }
    }

    pub fn to_string(&self) -> (s: String)
        ensures
            s@ == self.text(),
    {
        match self {
            AddUsersToChatError::DatabaseError => String::from_str(
                "An error occurred while accessing the database.",
            ),
            AddUsersToChatError::UnknownChat => String::from_str("Unknown chat."),
            AddUsersToChatError::UnknownUser => String::from_str(
                "`users_id` contains an unknown user.",
            ),
            AddUsersToChatError::AlreadyMember => String::from_str(
                "A user of `users_id` is already a member of this chat.",
            ),
        }
    }

    pub fn status_code(&self) -> (code: u16)
        ensures
            code == self.status(),
    {
        match self {
            AddUsersToChatError::DatabaseError => 500,
            AddUsersToChatError::UnknownChat => 404,
            AddUsersToChatError::UnknownUser => 400,
            AddUsersToChatError::AlreadyMember => 409,
        }
    }
}

/// The error answered for a failed access check.
pub open spec fn access_error(denied: AccessDenied) -> AddUsersToChatError {
    match denied {
        AccessDenied::NotFound => AddUsersToChatError::UnknownChat,
        AccessDenied::DatabaseError => AddUsersToChatError::DatabaseError,
    }
}

/// The error answered for a failed insertion. `conversation_members` has two foreign keys: the
/// database's message names `conversation_id` when the chat is missing, another key when a user
/// is; a unique violation means a user already is a member.
pub open spec fn add_error(failure: DbFailure) -> AddUsersToChatError {
    match failure {
        DbFailure::ForeignKeyViolation(message) => if has_infix(message@, "conversation_id"@) {
            AddUsersToChatError::UnknownChat
        } else {
            AddUsersToChatError::UnknownUser
        },
        DbFailure::UniqueViolation(_) => AddUsersToChatError::AlreadyMember,
        _ => AddUsersToChatError::DatabaseError,
    }
}

impl From<AccessDenied> for AddUsersToChatError {
    fn from(denied: AccessDenied) -> Self {
        match denied {
            AccessDenied::NotFound => AddUsersToChatError::UnknownChat,
            AccessDenied::DatabaseError => AddUsersToChatError::DatabaseError,
        }
    }
}

impl vstd::std_specs::convert::FromSpecImpl<AccessDenied> for AddUsersToChatError {
    open spec fn obeys_from_spec() -> bool {
        true
    }

    open spec fn from_spec(v: AccessDenied) -> Self {
        access_error(v)
    }
}

/// Where the route stands: the query it waits on, or its answer.
#[derive(Debug)]
pub enum AddUsersToChatStep {
    /// Read whether the caller may see the chat.
    CheckAccess(ChatAccessQueryView),
    /// Insert the memberships, all of them or none.
    AddMembers(AddMembersToChatQueryView),
    /// Answer: `200 OK` with the users added on success.
    Done(Result<AddUsersToChatResultView, AddUsersToChatError>),
}

/// The first step of the route for `user_id` in `chat_id`: the access check.
pub fn add_users_to_chat_start(chat_id: u64, user_id: u64) -> (step: AddUsersToChatStep)
    ensures
        step matches AddUsersToChatStep::CheckAccess(q) && q.params_view() == seq![
            id_param(chat_id),
            id_param(user_id),
        ],
{
    AddUsersToChatStep::CheckAccess(ChatAccessQueryView::new(chat_id, user_id))
}

/// After the access check: a caller who may see the chat goes on to the insertion, unless
/// there is nobody to add, which is answered at once without touching the database; anyone
/// else gets the answer given for an unknown chat.
pub fn add_users_to_chat_after_access(
    chat_id: u64,
    view: &AddUsersToChat,
    reply: Result<ChatAccess, DbFailure>,
) -> (step: AddUsersToChatStep)
    ensures
        match chat_access_outcome(reply) {
            Ok(_) => if view.users_id@.len() == 0 {
                step matches AddUsersToChatStep::Done(Ok(r)) && r.chat_id_view() == chat_id
                    && r.added_view() == Seq::<u64>::empty()
            } else {
                step matches AddUsersToChatStep::AddMembers(q) && q.params_view().len() == 2
                    && q.params_view()[0] == id_param(chat_id) && q.params_view()[1] is Text
                    && q.params_view()[1].text_value() == id_list(view.users_id@)
            },
            Err(denied) => step matches AddUsersToChatStep::Done(Err(e)) && e == access_error(
                denied,
            ),
        },
{
    match require_chat_access(reply) {
        Ok(_) => {
            let added = copy_ids(view.users_id.as_slice());
            let query = AddMembersToChatQueryView::new(chat_id, added);
            proof {
                if view.users_id@.len() > 0 {
                    lemma_id_list_nonempty(view.users_id@);
                }
            }
            if query.is_empty() {
                return AddUsersToChatStep::Done(
                    Ok(AddUsersToChatResultView::new(chat_id, Vec::new())),
                );
            }
            AddUsersToChatStep::AddMembers(query)
        },
        Err(denied) => AddUsersToChatStep::Done(Err(AddUsersToChatError::from(denied))),
    }
}

/// After the insertion: every requested user was added, or the error tells why none was.
pub fn trigger_add_users_to_chat(
    chat_id: u64,
    view: &AddUsersToChat,
    reply: Result<(), DbFailure>,
) -> (step: AddUsersToChatStep)
    ensures
        match reply {
            Ok(_) => step matches AddUsersToChatStep::Done(Ok(r)) && r.chat_id_view() == chat_id
                && r.added_view() == view.users_id@,
            Err(failure) => step matches AddUsersToChatStep::Done(Err(e)) && e == add_error(
                failure,
            ),
        },
{
    match reply {
        Ok(_) => AddUsersToChatStep::Done(
            Ok(AddUsersToChatResultView::new(chat_id, copy_ids(view.users_id.as_slice()))),
        ),
        Err(DbFailure::ForeignKeyViolation(message)) => {
            if contains_text(message.as_str(), "conversation_id") {
                AddUsersToChatStep::Done(Err(AddUsersToChatError::UnknownChat))
            } else {
                AddUsersToChatStep::Done(Err(AddUsersToChatError::UnknownUser))
            }
        },
        Err(DbFailure::UniqueViolation(_)) => AddUsersToChatStep::Done(
            Err(AddUsersToChatError::AlreadyMember),
        ),
        Err(_) => AddUsersToChatStep::Done(Err(AddUsersToChatError::DatabaseError)),
    }
}

} // verus!
