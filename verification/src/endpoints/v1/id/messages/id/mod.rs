pub mod delete;
pub mod patch;


use vstd::prelude::*;

verus! {

/// Path parameters of the routes of a message.
#[derive(Debug, Clone, Copy)]
pub struct MessagePathParams {
    chat_id: u64,
    message_id: u64,
}

impl MessagePathParams {
    pub closed spec fn chat_id_view(self) -> u64 {
        self.chat_id
    }

    pub closed spec fn message_id_view(self) -> u64 {
        self.message_id
    }

    pub fn new(chat_id: u64, message_id: u64) -> (p: Self)
        ensures
            p.chat_id_view() == chat_id,
            p.message_id_view() == message_id,
    {
        Self { chat_id, message_id }
    }

    pub fn chat_id(&self) -> (id: u64)
        ensures
            id == self.chat_id_view(),
    {
        self.chat_id
    }

    pub fn message_id(&self) -> (id: u64)
        ensures
            id == self.message_id_view(),
    {
        self.message_id
    }
}

} // verus!
