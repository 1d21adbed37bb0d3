use vstd::prelude::*;

use crate::database::query::{id_param, QueryParam};
use crate::text::{decimal, decimal_string};

verus! {

/// Reads the chats of user `$1` (where they are a not excluded member), newest first, with
/// their unread counters.
#[derive(Debug)]
pub struct GetChatsQueryView {
    params: Vec<QueryParam>,
}

impl GetChatsQueryView {
    #[verifier::type_invariant]
    closed spec fn well_formed(self) -> bool {
        &&& self.params@.len() == 1
        &&& self.params@[0] is I32
    }

    /// The parameters bound to the placeholders, `$1` first.
    pub closed spec fn params_view(self) -> Seq<QueryParam> {
        self.params@
    }

    pub fn new(user_id: u64) -> (v: Self)
        ensures
            v.params_view().len() == 1,
            v.params_view()[0] == id_param(user_id),
    {
        let mut params = Vec::new();
        params.push(QueryParam::I32(user_id as i32));
        GetChatsQueryView { params }
    }

    pub fn user_id(&self) -> (id: u64)
        ensures
            id == self.params_view()[0].i32_value() as u64,
    {
        proof {
            use_type_invariant(self);
        }
        self.params[0].as_i32() as u64
    }

    /// How the query describes itself in the logs.
    pub fn to_string(&self) -> (s: String)
        ensures
            s@ == "GetChatsQueryView: user_id="@
                + decimal((self.params_view()[0].i32_value() as u64) as nat),
    {
        proof {
            use_type_invariant(self);
        }
        let mut s = String::from_str("GetChatsQueryView: user_id=");
        let part = decimal_string(self.user_id());
        s.append(part.as_str());
        s
    }

    pub fn query_sql(&self) -> (sql: &'static str)
        ensures
            sql@ == "SELECT to_jsonb(t) FROM (
            SELECT
                c.id,
                c.title,
                COALESCE(uc.unread_count, 0) AS unread_count
            FROM conversations c
            INNER JOIN conversation_members cm ON c.id = cm.conversation_id
            LEFT JOIN unread_counters uc
                ON c.id = uc.conversation_id AND uc.user_id = cm.user_id
            WHERE cm.user_id = $1 AND cm.is_excluded = FALSE
            ORDER BY c.created_at DESC
         ) t"@,
    {
        "SELECT to_jsonb(t) FROM (
            SELECT
                c.id,
                c.title,
                COALESCE(uc.unread_count, 0) AS unread_count
            FROM conversations c
            INNER JOIN conversation_members cm ON c.id = cm.conversation_id
            LEFT JOIN unread_counters uc
                ON c.id = uc.conversation_id AND uc.user_id = cm.user_id
            WHERE cm.user_id = $1 AND cm.is_excluded = FALSE
            ORDER BY c.created_at DESC
         ) t"
    }

    pub fn query_params(&self) -> (p: &[QueryParam])
        ensures
            p@ == self.params_view(),
    {
        self.params.as_slice()
    }
}

/// A chat of the user as the database returns it.
#[derive(Debug, Clone)]
pub struct GetChatsQueryResultView {
    pub id: i32,
    pub title: Option<String>,
    pub unread_count: i32,
}

} // verus!
