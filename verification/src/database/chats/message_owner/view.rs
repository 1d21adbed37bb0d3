use vstd::prelude::*;

use crate::database::query::{id_param, QueryParam};
use crate::text::{signed_decimal, signed_decimal_string};

verus! {

/// Author of message `$1` of chat `$2` (`0` once the author's account is gone). No row when
/// the message does not belong to that chat.
#[derive(Debug)]
pub struct MessageOwnerQueryView {
    params: Vec<QueryParam>,
}

impl MessageOwnerQueryView {
    #[verifier::type_invariant]
    closed spec fn well_formed(self) -> bool {
        &&& self.params@.len() == 2
        &&& self.params@[0] is I64
        &&& self.params@[1] is I32
    }

    /// The parameters bound to the placeholders, `$1` first.
    pub closed spec fn params_view(self) -> Seq<QueryParam> {
        self.params@
    }

    pub fn new(chat_id: u64, message_id: u64) -> (v: Self)
        ensures
            v.params_view().len() == 2,
            v.params_view()[0] == QueryParam::I64(message_id as i64),
            v.params_view()[1] == id_param(chat_id),
    {
        let mut params = Vec::new();
        params.push(QueryParam::I64(message_id as i64));
        params.push(QueryParam::I32(chat_id as i32));
        MessageOwnerQueryView { params }
    }


    /// How the query describes itself in the logs.
    pub fn to_string(&self) -> (s: String)
        ensures
            s@ == "MessageOwnerQueryView: [I64("@
                + signed_decimal(self.params_view()[0].i64_value() as int)
                + "), I32("@
                + signed_decimal(self.params_view()[1].i32_value() as int)
                + ")]"@,
    {
        proof {
            use_type_invariant(self);
        }
        let mut s = String::from_str("MessageOwnerQueryView: [I64(");
        let part = signed_decimal_string(self.params[0].as_i64() as i64);
        s.append(part.as_str());
        s.append("), I32(");
        let part = signed_decimal_string(self.params[1].as_i32() as i64);
        s.append(part.as_str());
        s.append(")]");
        s
    }

    pub fn query_sql(&self) -> (sql: &'static str)
        ensures
            sql@ == "SELECT COALESCE(owner_id, 0) FROM messages WHERE id = $1 AND conversation_id = $2"@,
    {
        "SELECT COALESCE(owner_id, 0) FROM messages WHERE id = $1 AND conversation_id = $2"
    }

    pub fn query_params(&self) -> (p: &[QueryParam])
        ensures
            p@ == self.params_view(),
    {
        self.params.as_slice()
    }
}

} // verus!
