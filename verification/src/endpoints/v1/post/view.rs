use vstd::prelude::*;

use crate::endpoints::validation::{
    check_label, has_control, is_blank, label_outcome, outcome, Validate, ValidationError,
    MAX_TITLE_LENGTH,
};

verus! {

/// Chat to create, with its first members.
#[derive(Debug)]
pub struct CreateChatView {
    /// Core API ids of the other members; the caller is added anyway.
    members: Vec<u64>,
    /// Title of the chat; empty for a direct conversation.
    name: String,
}

impl CreateChatView {
    pub closed spec fn members_view(self) -> Seq<u64> {
        self.members@
    }

    pub closed spec fn name_view(self) -> Seq<char> {
        self.name@
    }

    pub fn new(members: Vec<u64>, name: String) -> (v: Self)
        ensures
            v.members_view() == members@,
            v.name_view() == name@,
    {
        Self { members, name }
    }

    pub fn members(&self) -> (m: &[u64])
        ensures
            m@ == self.members_view(),
    {
        self.members.as_slice()
    }

    pub fn name(&self) -> (s: &str)
        ensures
            s@ == self.name_view(),
    {
        self.name.as_str()
    }
}

impl Validate for CreateChatView {
    /// An empty title is allowed (direct conversation); a non-empty one is a displayed label of
    /// at most 150 characters.
    fn validate(&self) -> (r: Result<(), ValidationError>)
        ensures
            outcome(r) == if self.name_view().len() == 0 {
                Ok(())
            } else {
                label_outcome("name"@, self.name_view(), MAX_TITLE_LENGTH as nat)
            },
            r is Ok <==> (self.name_view().len() == 0 || (!is_blank(self.name_view())
                && self.name_view().len() <= MAX_TITLE_LENGTH && !has_control(self.name_view())
                && !self.name_view().contains('<') && !self.name_view().contains('>'))),
    {
        if self.name.as_str().is_empty() {
            return Ok(());
        }
        check_label("name", self.name.as_str(), MAX_TITLE_LENGTH)
    }
}

/// Chat created.
#[derive(Debug, Clone, Copy)]
pub struct CreateChatResultView {
    id: u64,
}

impl CreateChatResultView {
    pub closed spec fn id_view(self) -> u64 {
        self.id
    }

    pub fn new(id: u64) -> (v: Self)
        ensures
            v.id_view() == id,
    {
        Self { id }
    }

    pub fn id(&self) -> (id: u64)
        ensures
            id == self.id_view(),
    {
        self.id
    }
}

} // verus!
