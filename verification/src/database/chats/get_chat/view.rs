use vstd::prelude::*;

use crate::database::query::{id_param, QueryParam};
use crate::text::{decimal, decimal_string};

verus! {

/// Reads the messages of chat `$1`, oldest first, each row as one JSON object.
#[derive(Debug)]
pub struct GetChatQueryView {
    params: Vec<QueryParam>,
}

impl GetChatQueryView {
    #[verifier::type_invariant]
    closed spec fn well_formed(self) -> bool {
        &&& self.params@.len() == 1
        &&& self.params@[0] is I32
    }

    /// The parameters bound to the placeholders, `$1` first.
    pub closed spec fn params_view(self) -> Seq<QueryParam> {
        self.params@
    }

    pub fn new(chat_id: u64) -> (v: Self)
        ensures
            v.params_view().len() == 1,
            v.params_view()[0] == id_param(chat_id),
    {
        let mut params = Vec::new();
        params.push(QueryParam::I32(chat_id as i32));
        GetChatQueryView { params }
    }

    pub fn chat_id(&self) -> (id: u64)
        ensures
            id == self.params_view()[0].i32_value() as u64,
    {
        proof {
            use_type_invariant(self);
        }
        self.params[0].as_i32() as u64
    }

    /// How the query describes itself in the logs.
    pub fn to_string(&self) -> (s: String)
        ensures
            s@ == "GetChatQueryView: chat_id="@
                + decimal((self.params_view()[0].i32_value() as u64) as nat),
    {
        proof {
            use_type_invariant(self);
        }
        let mut s = String::from_str("GetChatQueryView: chat_id=");
        let part = decimal_string(self.chat_id());
        s.append(part.as_str());
        s
    }

    pub fn query_sql(&self) -> (sql: &'static str)
        ensures
            sql@ == "SELECT to_jsonb(t) FROM (
            SELECT id, owner_id, content, created_at
            FROM messages
            WHERE conversation_id = $1
            ORDER BY created_at
         ) t"@,
    {
        "SELECT to_jsonb(t) FROM (
            SELECT id, owner_id, content, created_at
            FROM messages
            WHERE conversation_id = $1
            ORDER BY created_at
         ) t"
    }

    pub fn query_params(&self) -> (p: &[QueryParam])
        ensures
            p@ == self.params_view(),
    {
        self.params.as_slice()
    }
}

/// An instant, as seconds and nanoseconds since 1970-01-01T00:00:00Z (the HTTP layer turns it
/// into and from a UTC date-time; the nanoseconds reach 1 999 999 999 only inside a leap second).
#[derive(Debug, Clone, Copy, PartialEq, Eq)]
pub struct Timestamp {
    pub seconds: i64,
    pub nanos: u32,
}

/// A message of a chat as the database returns it.
#[derive(Debug, Clone, PartialEq, Eq)]
pub struct Message {
    pub id: i64,
    pub owner_id: i32,
    pub content: String,
    pub created_at: Timestamp,
}

} // verus!
