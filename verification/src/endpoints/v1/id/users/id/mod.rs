pub mod delete;

use vstd::prelude::*;

verus! {

/// Path parameters of the routes of a member of a chat.
#[derive(Debug, Clone, Copy)]
pub struct UsersPathParams {
    chat_id: u64,
    user_id: u64,
}

impl UsersPathParams {
    pub closed spec fn chat_id_view(self) -> u64 {
        self.chat_id
    }

    pub closed spec fn user_id_view(self) -> u64 {
        self.user_id
    }

    pub fn new(chat_id: u64, user_id: u64) -> (p: Self)
        ensures
            p.chat_id_view() == chat_id,
            p.user_id_view() == user_id,
    {
        Self { chat_id, user_id }
    }

    pub fn chat_id(&self) -> (id: u64)
        ensures
            id == self.chat_id_view(),
    {
        self.chat_id
    }

    pub fn user_id(&self) -> (id: u64)
        ensures
            id == self.user_id_view(),
    {
        self.user_id
    }
}

} // verus!
