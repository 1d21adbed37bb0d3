use vstd::prelude::*;

use crate::text::{decimal, decimal_string};

verus! {

/// Reads the ids of the members of chat `$1`.
#[derive(Debug, Clone, Copy)]
pub struct GetChatMembersQueryView {
    chat_id: u64,
}

impl GetChatMembersQueryView {
    pub closed spec fn chat_id_view(self) -> u64 {
        self.chat_id
    }

    pub fn new(chat_id: u64) -> (v: Self)
        ensures
            v.chat_id_view() == chat_id,
    {
        Self { chat_id }
    }

    pub fn chat_id(&self) -> (id: u64)
        ensures
            id == self.chat_id_view(),
    {
        self.chat_id
    }

    /// How the query describes itself in the logs.
    pub fn to_string(&self) -> (s: String)
        ensures
            s@ == "GetChatMembersQueryView: chat_id="@ + decimal(self.chat_id_view() as nat),
    {
        let mut s = String::from_str("GetChatMembersQueryView: chat_id=");
        let part = decimal_string(self.chat_id);
        s.append(part.as_str());
        s
    }

    pub fn get_request(&self) -> (sql: String)
        ensures
            sql@ == "SELECT user_id from conversation_members WHERE conversation_id = $1"@,
    {
        String::from_str("SELECT user_id from conversation_members WHERE conversation_id = $1")
    }
}

} // verus!
