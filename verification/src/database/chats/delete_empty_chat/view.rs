use vstd::prelude::*;

use crate::database::query::{id_param, QueryParam};
use crate::text::{signed_decimal, signed_decimal_string};

verus! {

/// Deletes chat `$1` once it has no (not excluded) member left; no-op otherwise. A chat is
/// never deleted directly by its members: it goes away with its last member.
#[derive(Debug)]
pub struct DeleteEmptyChatQueryView {
    params: Vec<QueryParam>,
}

impl DeleteEmptyChatQueryView {
    #[verifier::type_invariant]
    closed spec fn well_formed(self) -> bool {
        &&& self.params@.len() == 1
        &&& self.params@[0] is I32
    }

    /// The parameters bound to the placeholders, `$1` first.
    pub closed spec fn params_view(self) -> Seq<QueryParam> {
        self.params@
    }

    pub fn new(chat_id: u64) -> (v: Self)
        ensures
            v.params_view().len() == 1,
            v.params_view()[0] == id_param(chat_id),
    {
        let mut params = Vec::new();
        params.push(QueryParam::I32(chat_id as i32));
        DeleteEmptyChatQueryView { params }
    }


    /// How the query describes itself in the logs.
    pub fn to_string(&self) -> (s: String)
        ensures
            s@ == "DeleteEmptyChatQueryView: [I32("@
                + signed_decimal(self.params_view()[0].i32_value() as int)
                + ")]"@,
    {
        proof {
            use_type_invariant(self);
        }
        let mut s = String::from_str("DeleteEmptyChatQueryView: [I32(");
        let part = signed_decimal_string(self.params[0].as_i32() as i64);
        s.append(part.as_str());
        s.append(")]");
        s
    }

    pub fn query_sql(&self) -> (sql: &'static str)
        ensures
            sql@ == "DELETE FROM conversations c WHERE c.id = $1 AND NOT EXISTS ( SELECT 1 FROM conversation_members m WHERE m.conversation_id = $1 AND m.is_excluded = FALSE)"@,
    {
        "DELETE FROM conversations c WHERE c.id = $1 AND NOT EXISTS ( SELECT 1 FROM conversation_members m WHERE m.conversation_id = $1 AND m.is_excluded = FALSE)"
    }

    pub fn query_params(&self) -> (p: &[QueryParam])
        ensures
            p@ == self.params_view(),
    {
        self.params.as_slice()
    }
}

} // verus!
