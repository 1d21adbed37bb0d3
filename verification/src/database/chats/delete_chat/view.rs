use vstd::prelude::*;

use crate::database::query::{id_param, QueryParam};
use crate::text::{decimal, decimal_string};

verus! {

/// Deletes chat `$1` and returns its id (no row when there is no such chat).
#[derive(Debug)]
pub struct DeleteChatQueryView {
    params: Vec<QueryParam>,
}

impl DeleteChatQueryView {
    #[verifier::type_invariant]
    closed spec fn well_formed(self) -> bool {
        &&& self.params@.len() == 1
        &&& self.params@[0] is I32
    }

    /// The parameters bound to the placeholders, `$1` first.
    pub closed spec fn params_view(self) -> Seq<QueryParam> {
        self.params@
    }

    pub fn new(chat_id: u64) -> (v: Self)
        ensures
            v.params_view().len() == 1,
            v.params_view()[0] == id_param(chat_id),
    {
        let mut params = Vec::new();
        params.push(QueryParam::I32(chat_id as i32));
        DeleteChatQueryView { params }
    }

    pub fn chat_id(&self) -> (id: u64)
        ensures
            id == self.params_view()[0].i32_value() as u64,
    {
        proof {
            use_type_invariant(self);
        }
        self.params[0].as_i32() as u64
    }

    /// How the query describes itself in the logs.
    pub fn to_string(&self) -> (s: String)
        ensures
            s@ == "DeleteChatQueryView: chat_id="@
                + decimal((self.params_view()[0].i32_value() as u64) as nat),
    {
        proof {
            use_type_invariant(self);
        }
        let mut s = String::from_str("DeleteChatQueryView: chat_id=");
        let part = decimal_string(self.chat_id());
        s.append(part.as_str());
        s
    }

    pub fn query_sql(&self) -> (sql: &'static str)
        ensures
            sql@ == "DELETE FROM conversations WHERE id = $1 RETURNING id"@,
    {
        "DELETE FROM conversations WHERE id = $1 RETURNING id"
    }

    pub fn query_params(&self) -> (p: &[QueryParam])
        ensures
            p@ == self.params_view(),
    {
        self.params.as_slice()
    }
}

} // verus!
