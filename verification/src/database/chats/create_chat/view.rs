use vstd::prelude::*;

use crate::database::query::QueryParam;
use crate::text::{signed_decimal, signed_decimal_string};

verus! {

/// Inserts a chat of title `$1` and group `$2` and returns its id: a group conversation when
/// `$2` is given, a direct one otherwise.
#[derive(Debug)]
pub struct CreateChatQueryView {
    params: Vec<QueryParam>,
}

impl CreateChatQueryView {
    #[verifier::type_invariant]
    closed spec fn well_formed(self) -> bool {
        &&& self.params@.len() == 2
        &&& self.params@[0] is Text
        &&& self.params@[1] is OptionI32
    }

    /// The parameters bound to the placeholders, `$1` first.
    pub closed spec fn params_view(self) -> Seq<QueryParam> {
        self.params@
    }

    pub fn new(title: &str, group_id: Option<i32>) -> (v: Self)
        ensures
            v.params_view().len() == 2,
            v.params_view()[0] is Text,
            v.params_view()[0].text_value() == title@,
            v.params_view()[1] == QueryParam::OptionI32(group_id),
    {
        let mut params = Vec::new();
        params.push(QueryParam::Text(String::from_str(title)));
        params.push(QueryParam::OptionI32(group_id));
        CreateChatQueryView { params }
    }

    pub fn title(&self) -> (s: &str)
        ensures
            s@ == self.params_view()[0].text_value(),
    {
        proof {
            use_type_invariant(self);
        }
        self.params[0].as_text()
    }

    pub fn group_id(&self) -> (g: Option<i32>)
        ensures
            g == self.params_view()[1].option_i32_value(),
    {
        proof {
            use_type_invariant(self);
        }
        self.params[1].as_option_i32()
    }

    /// How the query describes itself in the logs.
    pub fn to_string(&self) -> (s: String)
        ensures
            s@ == "CreateChatQueryView: title="@
                + self.params_view()[0].text_value()
                + " group_id="@
                + signed_decimal(
                    match self.params_view()[1].option_i32_value() {
                        Some(g) => g as int,
                        None => 0,
                    },
                ),
    {
        proof {
            use_type_invariant(self);
        }
        let mut s = String::from_str("CreateChatQueryView: title=");
        s.append(self.title());
        s.append(" group_id=");
        let g = match self.group_id() {
            Some(g) => g,
            None => 0,
        };
        let part = signed_decimal_string(g as i64);
        s.append(part.as_str());
        s
    }

    pub fn query_sql(&self) -> (sql: &'static str)
        ensures
            sql@ == "INSERT INTO conversations (title, group_id, kind) VALUES ($1, $2::int, CASE WHEN $2::int IS NULL THEN 'direct' ELSE 'group' END) RETURNING id"@,
    {
        "INSERT INTO conversations (title, group_id, kind) VALUES ($1, $2::int, CASE WHEN $2::int IS NULL THEN 'direct' ELSE 'group' END) RETURNING id"
    }

    pub fn query_params(&self) -> (p: &[QueryParam])
        ensures
            p@ == self.params_view(),
    {
        self.params.as_slice()
    }
}

} // verus!
