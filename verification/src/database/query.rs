//! The parameters bound to the placeholders (`$1`, `$2`, ...) of a SQL query.
use vstd::prelude::*;

verus! {

/// One parameter of a query. The HTTP layer hands it to the database library as the value of
/// the same kind.
#[derive(Debug, Clone, PartialEq, Eq)]
pub enum QueryParam {
    I32(i32),
    I64(i64),
    Text(String),
    OptionI32(Option<i32>),
}

impl QueryParam {
    /// The integer of an `I32` parameter (0 for another kind).
    pub open spec fn i32_value(self) -> i32 {
        match self {
            QueryParam::I32(v) => v,
            _ => 0,
        }
    }

    /// The integer of an `I64` parameter (0 for another kind).
    pub open spec fn i64_value(self) -> i64 {
        match self {
            QueryParam::I64(v) => v,
            _ => 0,
        }
    }

    /// The characters of a `Text` parameter (none for another kind).
    pub open spec fn text_value(self) -> Seq<char> {
        match self {
            QueryParam::Text(s) => s@,
            _ => Seq::empty(),
        }
    }

    /// The value of an `OptionI32` parameter (`None` for another kind).
    pub open spec fn option_i32_value(self) -> Option<i32> {
        match self {
            QueryParam::OptionI32(v) => v,
            _ => None,
        }
    }

    pub fn as_i32(&self) -> (v: i32)
        requires
            self is I32,
        ensures
            v == self.i32_value(),
    {
        match self {
            QueryParam::I32(v) => *v,
            _ => 0,
        }
    }

    pub fn as_i64(&self) -> (v: i64)
        requires
            self is I64,
        ensures
            v == self.i64_value(),
    {
        match self {
            QueryParam::I64(v) => *v,
            _ => 0,
        }
    }

    pub fn as_text(&self) -> (s: &str)
        requires
            self is Text,
        ensures
            s@ == self.text_value(),
    {
        match self {
            QueryParam::Text(s) => s.as_str(),
            _ => "",
        }
    }

    pub fn as_option_i32(&self) -> (v: Option<i32>)
        requires
            self is OptionI32,
        ensures
            v == self.option_i32_value(),
    {
        match self {
            QueryParam::OptionI32(v) => *v,
            _ => None,
        }
    }
}

/// The identifier `id` of the API as Postgres stores it, an `integer`: `id as i32`.
pub open spec fn id_param(id: u64) -> QueryParam {
    QueryParam::I32(id as i32)
}

/// An identifier that fits in Postgres's `integer` comes back unchanged from its parameter.
pub proof fn id_param_round_trip(id: u64)
    requires
        id <= i32::MAX,
    ensures
        (id_param(id).i32_value() as u64) == id,
{
}

} // verus!
