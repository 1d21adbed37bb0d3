use vstd::prelude::*;

use crate::database::query::{id_param, QueryParam};
use crate::text::{decimal, decimal_string};

verus! {

/// Replaces the content of message `$1` by `$2` and returns its id (no row when there is no
/// such message).
#[derive(Debug)]
pub struct PatchMessageQueryView {
    params: Vec<QueryParam>,
}

impl PatchMessageQueryView {
    #[verifier::type_invariant]
    closed spec fn well_formed(self) -> bool {
        &&& self.params@.len() == 2
        &&& self.params@[0] is I32
        &&& self.params@[1] is Text
    }

    /// The parameters bound to the placeholders, `$1` first.
    pub closed spec fn params_view(self) -> Seq<QueryParam> {
        self.params@
    }

    pub fn new(message_id: u64, content: &str) -> (v: Self)
        ensures
            v.params_view().len() == 2,
            v.params_view()[0] == id_param(message_id),
            v.params_view()[1] is Text,
            v.params_view()[1].text_value() == content@,
    {
        let mut params = Vec::new();
        params.push(QueryParam::I32(message_id as i32));
        params.push(QueryParam::Text(String::from_str(content)));
        PatchMessageQueryView { params }
    }

    pub fn message_id(&self) -> (id: u64)
        ensures
            id == self.params_view()[0].i32_value() as u64,
    {
        proof {
            use_type_invariant(self);
        }
        self.params[0].as_i32() as u64
    }

    pub fn content(&self) -> (s: &str)
        ensures
            s@ == self.params_view()[1].text_value(),
    {
        proof {
            use_type_invariant(self);
        }
        self.params[1].as_text()
    }

    /// How the query describes itself in the logs.
    pub fn to_string(&self) -> (s: String)
        ensures
            s@ == "PatchMessageQueryView: message_id="@
                + decimal((self.params_view()[0].i32_value() as u64) as nat)
                + ", content="@
                + self.params_view()[1].text_value(),
    {
        proof {
            use_type_invariant(self);
        }
        let mut s = String::from_str("PatchMessageQueryView: message_id=");
        let part = decimal_string(self.message_id());
        s.append(part.as_str());
        s.append(", content=");
        s.append(self.content());
        s
    }

    pub fn query_sql(&self) -> (sql: &'static str)
        ensures
            sql@ == "UPDATE messages SET content = $2 WHERE id = $1 RETURNING id"@,
    {
        "UPDATE messages SET content = $2 WHERE id = $1 RETURNING id"
    }

    pub fn query_params(&self) -> (p: &[QueryParam])
        ensures
            p@ == self.params_view(),
    {
        self.params.as_slice()
    }
}

} // verus!
