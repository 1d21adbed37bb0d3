//! Chat membership check shared by every `/api/v1/{chat_id}/**` route.
//!
//! Only the (not excluded) members of a chat may read it, read its members, post in it and
//! manage its members, and only its author may edit or delete a message; administrators bypass
//! both checks. A chat is never deleted directly by its members: only an administrator may
//! delete it. A caller who may not see the chat gets the same answer as for an unknown chat, so
//! the routes never reveal that a chat exists.
use vstd::prelude::*;

use crate::database::chats::access::view::ChatAccess;
use crate::database::failure::DbFailure;
use crate::endpoints::v1::id::delete::endpoint as delete_chat;
use crate::endpoints::v1::id::get::endpoint as get_chat;
use crate::endpoints::v1::id::messages::id::delete::endpoint as delete_message;
use crate::endpoints::v1::id::messages::id::patch::endpoint as patch_message;
use crate::endpoints::v1::id::messages::post::endpoint as post_message;
use crate::endpoints::v1::id::users::get::endpoint as get_chat_users;
use crate::endpoints::v1::id::users::id::delete::endpoint as remove_user;
use crate::endpoints::v1::id::users::post::endpoint as add_users;

verus! {

#[derive(Debug, Clone, Copy, PartialEq, Eq, Structural)]
pub enum AccessDenied {
    /// The chat does not exist, or the caller is neither a member nor an administrator.
    NotFound,
    DatabaseError,
}

#[derive(Debug, Clone, Copy, PartialEq, Eq, Structural)]
pub enum MessageDenied {
    /// No message `message_id` in this chat.
    NotFound,
    /// The message belongs to another member.
    Forbidden,
    DatabaseError,
}

/// The caller may see the chat: it exists and they are a member or an administrator.
pub open spec fn may_see(access: ChatAccess) -> bool {
    access.chat_exists && (access.is_member || access.is_admin)
}

/// The answer of the access check to what the database said of the chat and the caller:
/// whether the caller is an administrator, when they may see the chat.
pub open spec fn chat_access_outcome(reply: Result<ChatAccess, DbFailure>) -> Result<
    bool,
    AccessDenied,
> {
    match reply {
        Err(_) => Err(AccessDenied::DatabaseError),
        Ok(access) => if may_see(access) {
            Ok(access.is_admin)
        } else {
            Err(AccessDenied::NotFound)
        },
    }
}

/// The answer of the authorship check to what the database said of the message's author.
pub open spec fn message_author_outcome(
    reply: Result<i32, DbFailure>,
    user_id: u64,
    is_admin: bool,
) -> Result<(), MessageDenied> {
    match reply {
        Err(DbFailure::NotFound) => Err(MessageDenied::NotFound),
        Err(_) => Err(MessageDenied::DatabaseError),
        Ok(owner_id) => if is_admin || owner_id as u64 == user_id {
            Ok(())
        } else {
            Err(MessageDenied::Forbidden)
        },
    }
}

/// Decides whether the caller may act on the chat, from the database's answer to
/// `ChatAccessQueryView::new(chat_id, user_id)`; tells whether they are an administrator (who
/// may also act on the messages of others).
pub fn require_chat_access(reply: Result<ChatAccess, DbFailure>) -> (r: Result<bool, AccessDenied>)
    ensures
        r == chat_access_outcome(reply),
{
    match reply {
        Err(_) => Err(AccessDenied::DatabaseError),
        Ok(access) => {
            if !access.chat_exists || !(access.is_member || access.is_admin) {
                return Err(AccessDenied::NotFound);
            }
            Ok(access.is_admin)
        },
    }
}

/// Decides whether the caller may act on the message, from the database's answer to
/// `MessageOwnerQueryView::new(chat_id, message_id)` (no row when the message is not in that
/// chat); an administrator (`is_admin`, from [`require_chat_access`]) may act on any message.
pub fn require_message_author(reply: Result<i32, DbFailure>, user_id: u64, is_admin: bool) -> (r:
    Result<(), MessageDenied>)
    ensures
        r == message_author_outcome(reply, user_id, is_admin),
        reply matches Ok(owner_id) ==> (r is Ok <==> (is_admin || owner_id as u64 == user_id)),
        reply is Err ==> r is Err,
{
    match reply {
        Err(DbFailure::NotFound) => Err(MessageDenied::NotFound),
        Err(_) => Err(MessageDenied::DatabaseError),
        Ok(owner_id) => {
            if is_admin || owner_id as u64 == user_id {
                Ok(())
            } else {
                Err(MessageDenied::Forbidden)
            }
        },
    }
}

/// A caller who may not see an existing chat gets the answer given for a chat that does not
/// exist.
pub proof fn hidden_chat_looks_unknown(hidden: ChatAccess, missing: ChatAccess)
    requires
        hidden.chat_exists,
        !hidden.is_member,
        !hidden.is_admin,
        !missing.chat_exists,
    ensures
        chat_access_outcome(Ok(hidden)) == chat_access_outcome(Ok(missing)),
        chat_access_outcome(Ok(missing)) == Err::<bool, AccessDenied>(AccessDenied::NotFound),
{
}

/// The author of a message and every administrator may act on it, an administrator on their
/// own messages too; any other member is forbidden.
pub proof fn author_or_administrator_may_act(owner_id: i32, user_id: u64, is_admin: bool)
    ensures
        message_author_outcome(Ok(owner_id), user_id, is_admin) is Ok <==> (is_admin || owner_id
            as u64 == user_id),
        !is_admin && owner_id as u64 != user_id ==> message_author_outcome(
            Ok(owner_id),
            user_id,
            is_admin,
        ) == Err::<(), MessageDenied>(MessageDenied::Forbidden),
{
}

/// Acting on a message takes both checks: the caller may see the chat, and wrote the message or
/// is an administrator.
pub proof fn message_write_requires_author(
    access: Result<ChatAccess, DbFailure>,
    owner: Result<i32, DbFailure>,
    user_id: u64,
)
    requires
        chat_access_outcome(access) is Ok,
        message_author_outcome(owner, user_id, chat_access_outcome(access)->Ok_0) is Ok,
    ensures
        access matches Ok(a) && may_see(a),
        owner is Ok,
        access->Ok_0.is_admin || owner->Ok_0 as u64 == user_id,
{
}

/// A chat is deleted only at the request of an administrator: for any other caller, member or
/// not, the route stops before the deletion.
pub proof fn only_administrators_delete_chats(reply: Result<ChatAccess, DbFailure>)
    ensures
        delete_chat::delete_access_error(chat_access_outcome(reply)) is None <==> (reply matches Ok(
            a,
        ) && a.chat_exists && a.is_admin),
{
}

/// The messages of a chat are read only for a caller who may see it; anyone else is told that
/// the chat is unknown, as for a chat that does not exist.
pub proof fn only_members_read_chats(reply: Result<ChatAccess, DbFailure>)
    ensures
        chat_access_outcome(reply) is Ok <==> (reply matches Ok(a) && may_see(a)),
        reply matches Ok(a) && !may_see(a) ==> get_chat::access_error(
            chat_access_outcome(reply)->Err_0,
        ) == get_chat::GetChatError::UnknownChat,
{
}

/// Every route that guards its chat answers a caller who may not see it `404 Not Found` (the
/// reading of a chat answers its `Unknown chat.`), and a failed access read `500`.
pub proof fn guarded_routes_answer_hidden_chats_404()
    ensures
        delete_chat::delete_access_error(Err(AccessDenied::NotFound))->Some_0.status() == 404,
        delete_chat::delete_access_error(Err(AccessDenied::DatabaseError))->Some_0.status() == 500,
        get_chat::access_error(AccessDenied::NotFound).text() == "Unknown chat."@,
        get_chat::access_error(AccessDenied::DatabaseError).status() == 500,
        delete_message::access_error(AccessDenied::NotFound).status() == 404,
        patch_message::access_error(AccessDenied::NotFound).status() == 404,
        post_message::access_error(AccessDenied::NotFound).status() == 404,
        get_chat_users::access_error(AccessDenied::NotFound).status() == 404,
        remove_user::access_error(AccessDenied::NotFound).status() == 404,
        add_users::access_error(AccessDenied::NotFound).status() == 404,
        delete_message::access_error(AccessDenied::DatabaseError).status() == 500,
        patch_message::access_error(AccessDenied::DatabaseError).status() == 500,
        post_message::access_error(AccessDenied::DatabaseError).status() == 500,
        get_chat_users::access_error(AccessDenied::DatabaseError).status() == 500,
        remove_user::access_error(AccessDenied::DatabaseError).status() == 500,
        add_users::access_error(AccessDenied::DatabaseError).status() == 500,
{
}

} // verus!
