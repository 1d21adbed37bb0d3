use vstd::prelude::*;

use crate::database::query::{id_param, QueryParam};
use crate::text::{decimal, decimal_string};

verus! {

/// Removes user `$2` from chat `$1` and returns it (no row when they were not a member).
#[derive(Debug)]
pub struct RemoveMemberFromChatQueryView {
    params: Vec<QueryParam>,
}

impl RemoveMemberFromChatQueryView {
    #[verifier::type_invariant]
    closed spec fn well_formed(self) -> bool {
        &&& self.params@.len() == 2
        &&& self.params@[0] is I32
        &&& self.params@[1] is I32
    }

    /// The parameters bound to the placeholders, `$1` first.
    pub closed spec fn params_view(self) -> Seq<QueryParam> {
        self.params@
    }

    pub fn new(chat_id: u64, user_id: u64) -> (v: Self)
        ensures
            v.params_view().len() == 2,
            v.params_view()[0] == id_param(chat_id),
            v.params_view()[1] == id_param(user_id),
    {
        let mut params = Vec::new();
        params.push(QueryParam::I32(chat_id as i32));
        params.push(QueryParam::I32(user_id as i32));
        RemoveMemberFromChatQueryView { params }
    }

    pub fn chat_id(&self) -> (id: u64)
        ensures
            id == self.params_view()[0].i32_value() as u64,
    {
        proof {
            use_type_invariant(self);
        }
        self.params[0].as_i32() as u64
    }

    pub fn user_id(&self) -> (id: u64)
        ensures
            id == self.params_view()[1].i32_value() as u64,
    {
        proof {
            use_type_invariant(self);
        }
        self.params[1].as_i32() as u64
    }

    /// How the query describes itself in the logs.
    pub fn to_string(&self) -> (s: String)
        ensures
            s@ == "RemoveMemberFromChatQueryView: chat_id="@
                + decimal((self.params_view()[0].i32_value() as u64) as nat)
                + " user_id="@
                + decimal((self.params_view()[1].i32_value() as u64) as nat),
    {
        proof {
            use_type_invariant(self);
        }
        let mut s = String::from_str("RemoveMemberFromChatQueryView: chat_id=");
        let part = decimal_string(self.chat_id());
        s.append(part.as_str());
        s.append(" user_id=");
        let part = decimal_string(self.user_id());
        s.append(part.as_str());
        s
    }

    pub fn query_sql(&self) -> (sql: &'static str)
        ensures
            sql@ == "DELETE FROM conversation_members WHERE conversation_id = $1 AND user_id = $2 RETURNING user_id"@,
    {
        "DELETE FROM conversation_members WHERE conversation_id = $1 AND user_id = $2 RETURNING user_id"
    }

    pub fn query_params(&self) -> (p: &[QueryParam])
        ensures
            p@ == self.params_view(),
    {
        self.params.as_slice()
    }
}

} // verus!
