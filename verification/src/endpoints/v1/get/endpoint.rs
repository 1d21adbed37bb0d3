//! `GET /api/v1/`: the chats of the caller, with their unread counters.
use vstd::prelude::*;

use crate::database::chats::get_chats::view::GetChatsQueryResultView;
use crate::database::failure::DbFailure;
use crate::endpoints::v1::get::view::GetChatsResultView;

verus! {

#[derive(Debug, Clone, Copy, PartialEq, Eq, Structural)]
pub enum GetChatsError {
    BadRequest,
    DatabaseError,
}

impl GetChatsError {
    /// The body of the error response.
    pub open spec fn text(self) -> Seq<char> {
        match self {
            GetChatsError::DatabaseError => "An error occurred while accessing the database."@,
            GetChatsError::BadRequest => "Bad request."@,
        }
    }

    /// The HTTP status of the error response.
    pub open spec fn status(self) -> u16 {
        match self {
            GetChatsError::DatabaseError => 500,
            GetChatsError::BadRequest => 400,
        }
    }

    pub fn to_string(&self) -> (s: String)
        ensures
            s@ == self.text(),
    {
        match self {
            GetChatsError::DatabaseError => String::from_str(
                "An error occurred while accessing the database.",
            ),
            GetChatsError::BadRequest => String::from_str("Bad request."),
        }
    }

    pub fn status_code(&self) -> (code: u16)
        ensures
            code == self.status(),
    {
        match self {
            GetChatsError::DatabaseError => 500,
            GetChatsError::BadRequest => 400,
        }
    }
}

/// The answer of the route to the chats read by `GetChatsQueryView::new(user_id)`.
pub fn trigger_get_chats(reply: Result<Vec<GetChatsQueryResultView>, DbFailure>) -> (r: Result<
    GetChatsResultView,
    GetChatsError,
>)
    ensures
        match reply {
            Ok(rows) => r matches Ok(v) && v.chats_view().len() == rows@.len() && forall|i: int|
                0 <= i < rows@.len() ==> #[trigger] v.chats_view()[i].shows(rows@[i]),
            Err(_) => r matches Err(e) && e == GetChatsError::DatabaseError,
        },
        reply matches Ok(rows) ==> r matches Ok(v) && forall|i: int|
            0 <= i < rows@.len() ==> (#[trigger] v.chats_view()[i]).name_view() == match rows@[
                i].title {
                Some(t) => t@,
                None => Seq::<char>::empty(),
            },
{
    match reply {
        Ok(rows) => Ok(GetChatsResultView::from(rows)),
        Err(_) => Err(GetChatsError::DatabaseError),
    }
}

} // verus!
