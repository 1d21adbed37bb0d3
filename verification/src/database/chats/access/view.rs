use vstd::prelude::*;

use crate::database::query::{id_param, QueryParam};
use crate::text::{decimal, decimal_string};

verus! {

/// What the caller may do on a chat: whether it exists, whether the caller is one of its (not
/// excluded) members, and whether the caller is an administrator (who bypasses membership).
#[derive(Debug, Clone, Copy, PartialEq, Eq)]
pub struct ChatAccess {
    pub chat_exists: bool,
    pub is_member: bool,
    pub is_admin: bool,
}

/// Reads whether chat `$1` exists, whether user `$2` is one of its members and whether `$2` is
/// an administrator.
#[derive(Debug)]
pub struct ChatAccessQueryView {
    params: Vec<QueryParam>,
}

impl ChatAccessQueryView {
    #[verifier::type_invariant]
    closed spec fn well_formed(self) -> bool {
        &&& self.params@.len() == 2
        &&& self.params@[0] is I32
        &&& self.params@[1] is I32
    }

    /// The parameters bound to `$1`, `$2`.
    pub closed spec fn params_view(self) -> Seq<QueryParam> {
        self.params@
    }

    pub fn new(chat_id: u64, user_id: u64) -> (v: Self)
        ensures
            v.params_view() == seq![id_param(chat_id), id_param(user_id)],
    {
        let mut params = Vec::new();
        params.push(QueryParam::I32(chat_id as i32));
        params.push(QueryParam::I32(user_id as i32));
        ChatAccessQueryView { params }
    }

    pub fn chat_id(&self) -> (id: u64)
        ensures
            id == self.params_view()[0].i32_value() as u64,
    {
        proof {
            use_type_invariant(self);
        }
        self.params[0].as_i32() as u64
    }

    pub fn user_id(&self) -> (id: u64)
        ensures
            id == self.params_view()[1].i32_value() as u64,
    {
        proof {
            use_type_invariant(self);
        }
        self.params[1].as_i32() as u64
    }

    /// How the query describes itself in the logs.
    pub fn to_string(&self) -> (s: String)
        ensures
            s@ == "ChatAccessQueryView: chat_id="@
                + decimal((self.params_view()[0].i32_value() as u64) as nat)
                + " user_id="@
                + decimal((self.params_view()[1].i32_value() as u64) as nat),
    {
        proof {
            use_type_invariant(self);
        }
        let mut s = String::from_str("ChatAccessQueryView: chat_id=");
        let part = decimal_string(self.chat_id());
        s.append(part.as_str());
        s.append(" user_id=");
        let part = decimal_string(self.user_id());
        s.append(part.as_str());
        s
    }

    pub fn query_sql(&self) -> (sql: &'static str)
        ensures
            sql@ == "SELECT jsonb_build_object( 'chat_exists', EXISTS(SELECT 1 FROM conversations WHERE id = $1), 'is_member', EXISTS( SELECT 1 FROM conversation_members WHERE conversation_id = $1 AND user_id = $2 AND is_excluded = FALSE), 'is_admin', is_admin($2))"@,
    {
        "SELECT jsonb_build_object( 'chat_exists', EXISTS(SELECT 1 FROM conversations WHERE id = $1), 'is_member', EXISTS( SELECT 1 FROM conversation_members WHERE conversation_id = $1 AND user_id = $2 AND is_excluded = FALSE), 'is_admin', is_admin($2))"
    }

    pub fn query_params(&self) -> (p: &[QueryParam])
        ensures
            p@ == self.params_view(),
    {
        self.params.as_slice()
    }
}

} // verus!
