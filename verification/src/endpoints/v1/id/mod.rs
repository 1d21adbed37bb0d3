pub mod access;
pub mod delete;
pub mod get;
pub mod messages;
pub mod users;

use vstd::prelude::*;

verus! {

/// Path parameters of the routes of a chat.
#[derive(Debug, Clone, Copy)]
pub struct ChatPathParams {
    chat_id: u64,
}

impl ChatPathParams {
    pub closed spec fn chat_id_view(self) -> u64 {
        self.chat_id
    }

    pub fn new(chat_id: u64) -> (p: Self)
        ensures
            p.chat_id_view() == chat_id,
    {
        Self { chat_id }
    }

    pub fn chat_id(&self) -> (id: u64)
        ensures
            id == self.chat_id_view(),
    {
        self.chat_id
    }
}

} // verus!
