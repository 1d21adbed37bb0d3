use vstd::prelude::*;

use crate::database::query::{id_param, QueryParam};
use crate::text::{decimal, decimal_string};

verus! {

/// Inserts message `$3` from user `$2` into chat `$1` and returns its id.
#[derive(Debug)]
pub struct PostMessageInChatQueryView {
    params: Vec<QueryParam>,
}

impl PostMessageInChatQueryView {
    #[verifier::type_invariant]
    closed spec fn well_formed(self) -> bool {
        &&& self.params@.len() == 3
        &&& self.params@[0] is I32
        &&& self.params@[1] is I32
        &&& self.params@[2] is Text
    }

    /// The parameters bound to the placeholders, `$1` first.
    pub closed spec fn params_view(self) -> Seq<QueryParam> {
        self.params@
    }

    pub fn new(chat_id: u64, sender: u64, message: &str) -> (v: Self)
        ensures
            v.params_view().len() == 3,
            v.params_view()[0] == id_param(chat_id),
            v.params_view()[1] == id_param(sender),
            v.params_view()[2] is Text,
            v.params_view()[2].text_value() == message@,
    {
        let mut params = Vec::new();
        params.push(QueryParam::I32(chat_id as i32));
        params.push(QueryParam::I32(sender as i32));
        params.push(QueryParam::Text(String::from_str(message)));
        PostMessageInChatQueryView { params }
    }

    pub fn chat_id(&self) -> (id: u64)
        ensures
            id == self.params_view()[0].i32_value() as u64,
    {
        proof {
            use_type_invariant(self);
        }
        self.params[0].as_i32() as u64
    }

    pub fn sender(&self) -> (id: u64)
        ensures
            id == self.params_view()[1].i32_value() as u64,
    {
        proof {
            use_type_invariant(self);
        }
        self.params[1].as_i32() as u64
    }

    pub fn message(&self) -> (s: &str)
        ensures
            s@ == self.params_view()[2].text_value(),
    {
        proof {
            use_type_invariant(self);
        }
        self.params[2].as_text()
    }

    /// How the query describes itself in the logs.
    pub fn to_string(&self) -> (s: String)
        ensures
            s@ == "PostMessageInChatQueryView: chat_id="@
                + decimal((self.params_view()[0].i32_value() as u64) as nat)
                + " sender="@
                + decimal((self.params_view()[1].i32_value() as u64) as nat)
                + " message="@
                + self.params_view()[2].text_value(),
    {
        proof {
            use_type_invariant(self);
        }
        let mut s = String::from_str("PostMessageInChatQueryView: chat_id=");
        let part = decimal_string(self.chat_id());
        s.append(part.as_str());
        s.append(" sender=");
        let part = decimal_string(self.sender());
        s.append(part.as_str());
        s.append(" message=");
        s.append(self.message());
        s
    }

    pub fn query_sql(&self) -> (sql: &'static str)
        ensures
            sql@ == "INSERT INTO messages (conversation_id, owner_id, content) VALUES ($1, $2, $3) RETURNING id"@,
    {
        "INSERT INTO messages (conversation_id, owner_id, content) VALUES ($1, $2, $3) RETURNING id"
    }

    pub fn query_params(&self) -> (p: &[QueryParam])
        ensures
            p@ == self.params_view(),
    {
        self.params.as_slice()
    }
}

} // verus!
