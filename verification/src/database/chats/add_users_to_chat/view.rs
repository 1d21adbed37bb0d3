use vstd::prelude::*;

use crate::database::query::{id_param, QueryParam};
use crate::text::{debug_list, debug_list_string, decimal, decimal_string, id_list, id_list_string, ids_of_list, ids_of_list_str};

verus! {

/// Makes users `$2` members of chat `$1`. The parameters know no arrays: the ids travel as the
/// text `1,2,3`, which Postgres turns back into an `integer[]` with `string_to_array`.
#[derive(Debug)]
pub struct AddMembersToChatQueryView {
    params: Vec<QueryParam>,
}

impl AddMembersToChatQueryView {
    #[verifier::type_invariant]
    closed spec fn well_formed(self) -> bool {
        &&& self.params@.len() == 2
        &&& self.params@[0] is I32
        &&& self.params@[1] is Text
    }

    /// The parameters bound to the placeholders, `$1` first.
    pub closed spec fn params_view(self) -> Seq<QueryParam> {
        self.params@
    }

    pub fn new(chat_id: u64, user_id: Vec<u64>) -> (v: Self)
        ensures
            v.params_view().len() == 2,
            v.params_view()[0] == id_param(chat_id),
            v.params_view()[1] is Text,
            v.params_view()[1].text_value() == id_list(user_id@),
    {
        let csv = id_list_string(&user_id);
        let mut params = Vec::new();
        params.push(QueryParam::I32(chat_id as i32));
        params.push(QueryParam::Text(csv));
        AddMembersToChatQueryView { params }
    }

    pub fn chat_id(&self) -> (id: u64)
        ensures
            id == self.params_view()[0].i32_value() as u64,
    {
        proof {
            use_type_invariant(self);
        }
        self.params[0].as_i32() as u64
    }

    /// The users' ids read back from the list (those that fit in an `i32`).
    pub fn user_id(&self) -> (ids: Vec<i32>)
        ensures
            ids@ == ids_of_list(self.params_view()[1].text_value()),
    {
        proof {
            use_type_invariant(self);
        }
        ids_of_list_str(self.params[1].as_text())
    }

    /// Whether there is no user to add.
    pub fn is_empty(&self) -> (r: bool)
        ensures
            r == (self.params_view()[1].text_value().len() == 0),
    {
        proof {
            use_type_invariant(self);
        }
        self.params[1].as_text().is_empty()
    }

    /// How the query describes itself in the logs.
    pub fn to_string(&self) -> (s: String)
        ensures
            s@ == "AddMembersToChatQueryView: chat_id="@
                + decimal((self.params_view()[0].i32_value() as u64) as nat)
                + " user_id="@
                + debug_list(ids_of_list(self.params_view()[1].text_value())),
    {
        proof {
            use_type_invariant(self);
        }
        let mut s = String::from_str("AddMembersToChatQueryView: chat_id=");
        let part = decimal_string(self.chat_id());
        s.append(part.as_str());
        s.append(" user_id=");
        let ids = self.user_id();
        let part = debug_list_string(&ids);
        s.append(part.as_str());
        s
    }

    pub fn query_sql(&self) -> (sql: &'static str)
        ensures
            sql@ == "INSERT INTO conversation_members (conversation_id, user_id)
         SELECT $1, unnest(string_to_array($2, ','))::integer"@,
    {
        "INSERT INTO conversation_members (conversation_id, user_id)
         SELECT $1, unnest(string_to_array($2, ','))::integer"
    }

    pub fn query_params(&self) -> (p: &[QueryParam])
        ensures
            p@ == self.params_view(),
    {
        self.params.as_slice()
    }
}

} // verus!
