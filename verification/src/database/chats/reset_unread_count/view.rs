use vstd::prelude::*;

use crate::text::{decimal, decimal_string};

verus! {

/// Sets to 0 the unread counter of user `$2` in chat `$1`.
#[derive(Debug, Clone, Copy)]
pub struct ResetUnreadCountQueryView {
    chat_id: u64,
    user_id: u64,
}

impl ResetUnreadCountQueryView {
    pub closed spec fn chat_id_view(self) -> u64 {
        self.chat_id
    }

    pub closed spec fn user_id_view(self) -> u64 {
        self.user_id
    }

    pub fn new(chat_id: u64, user_id: u64) -> (v: Self)
        ensures
            v.chat_id_view() == chat_id,
            v.user_id_view() == user_id,
    {
        Self { chat_id, user_id }
    }

    pub fn chat_id(&self) -> (id: u64)
        ensures
            id == self.chat_id_view(),
    {
        self.chat_id
    }

    pub fn user_id(&self) -> (id: u64)
        ensures
            id == self.user_id_view(),
    {
        self.user_id
    }

    /// How the query describes itself in the logs.
    pub fn to_string(&self) -> (s: String)
        ensures
            s@ == "ResetUnreadCountQueryView: chat_id="@
                + decimal(self.chat_id_view() as nat)
                + " user_id="@
                + decimal(self.user_id_view() as nat),
    {
        let mut s = String::from_str("ResetUnreadCountQueryView: chat_id=");
        let part = decimal_string(self.chat_id);
        s.append(part.as_str());
        s.append(" user_id=");
        let part = decimal_string(self.user_id);
        s.append(part.as_str());
        s
    }

    pub fn get_request(&self) -> (sql: String)
        ensures
            sql@ == "UPDATE unread_counters SET unread_count = 0 WHERE conversation_id = $1 AND user_id = $2"@,
    {
        String::from_str(
            "UPDATE unread_counters SET unread_count = 0 WHERE conversation_id = $1 AND user_id = $2",
        )
    }
}

} // verus!
