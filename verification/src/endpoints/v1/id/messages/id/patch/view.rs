use vstd::prelude::*;

use crate::endpoints::validation::{
    check_description, has_other_control, is_blank, is_blank_str, outcome,
    required_description_outcome, Validate, ValidationError, MAX_MESSAGE_LENGTH,
};

verus! {

/// New content of a message, which replaces the old one entirely.
#[derive(Debug)]
pub struct PatchMessageView {
    content: String,
}

impl PatchMessageView {
    pub closed spec fn content_view(self) -> Seq<char> {
        self.content@
    }

    pub fn new(content: &str) -> (v: Self)
        ensures
            v.content_view() == content@,
    {
        Self { content: String::from_str(content) }
    }

    pub fn content(&self) -> (s: &str)
        ensures
            s@ == self.content_view(),
    {
        self.content.as_str()
    }
}

impl Validate for PatchMessageView {
    /// `content`: not blank, at most 5000 characters, no `<` / `>`, no control character but
    /// line breaks and tabs.
    fn validate(&self) -> (r: Result<(), ValidationError>)
        ensures
            outcome(r) == required_description_outcome(
                "content"@,
                self.content_view(),
                MAX_MESSAGE_LENGTH as nat,
            ),
            r is Ok <==> (!is_blank(self.content_view()) && self.content_view().len()
                <= MAX_MESSAGE_LENGTH && !has_other_control(self.content_view())
                && !self.content_view().contains('<') && !self.content_view().contains('>')),
    {
        if is_blank_str(self.content.as_str()) {
            return Err(ValidationError::new("content", "must not be empty"));
        }
        check_description("content", self.content.as_str(), MAX_MESSAGE_LENGTH)
    }
}

} // verus!
