use vstd::prelude::*;

use crate::endpoints::validation::{
    check_description, has_other_control, is_blank, is_blank_str, outcome,
    required_description_outcome, Validate, ValidationError, MAX_MESSAGE_LENGTH,
};

verus! {

/// Message to post in the chat of the path.
#[derive(Debug)]
pub struct PostMessageView {
    /// The message this one answers, if any.
    sitation: Option<u64>,
    content: String,
}

impl PostMessageView {
    pub closed spec fn sitation_view(self) -> Option<u64> {
        self.sitation
    }

    pub closed spec fn content_view(self) -> Seq<char> {
        self.content@
    }

    pub fn new(sitation: Option<u64>, content: String) -> (v: Self)
        ensures
            v.sitation_view() == sitation,
            v.content_view() == content@,
    {
        Self { sitation, content }
    }

    pub fn sitation(&self) -> (s: Option<u64>)
        ensures
            s == self.sitation_view(),
    {
        self.sitation
    }

    pub fn content(&self) -> (s: &str)
        ensures
            s@ == self.content_view(),
    {
        self.content.as_str()
    }
}

impl Validate for PostMessageView {
    /// `content`: not blank, at most 5000 characters, no `<` / `>`, no control character but
    /// line breaks and tabs.
    fn validate(&self) -> (r: Result<(), ValidationError>)
        ensures
            outcome(r) == required_description_outcome(
                "content"@,
                self.content_view(),
                MAX_MESSAGE_LENGTH as nat,
            ),
            r is Ok <==> (!is_blank(self.content_view()) && self.content_view().len()
                <= MAX_MESSAGE_LENGTH && !has_other_control(self.content_view())
                && !self.content_view().contains('<') && !self.content_view().contains('>')),
    {
        if is_blank_str(self.content.as_str()) {
            return Err(ValidationError::new("content", "must not be empty"));
        }
        check_description("content", self.content.as_str(), MAX_MESSAGE_LENGTH)
    }
}

/// Message posted.
#[derive(Debug, Clone, Copy)]
pub struct PostMessageResultView {
    id: u64,
}

impl PostMessageResultView {
    pub closed spec fn id_view(self) -> u64 {
        self.id
    }

    pub fn new(id: u64) -> (v: Self)
        ensures
            v.id_view() == id,
    {
        Self { id }
    }

    pub fn id(&self) -> (id: u64)
        ensures
            id == self.id_view(),
    {
        self.id
    }
}

} // verus!
