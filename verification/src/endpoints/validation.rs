//! Input validation shared by every request body and query string of the API.
//!
//! A request view implements [`Validate`]; the HTTP layer rejects an invalid value with a
//! `400 Bad Request` whose plain-text body is the [`ValidationError`] text, naming the field,
//! before the handler runs.
use vstd::prelude::*;

use crate::text::{decimal, decimal_string};

verus! {

broadcast use vstd::string::group_string_axioms;

/// `conversations.title` is `VARCHAR(150)`.
pub const MAX_TITLE_LENGTH: usize = 150;

/// `messages.content` is `TEXT`, capped to keep the payloads reasonable.
pub const MAX_MESSAGE_LENGTH: usize = 5000;

/// Why a request value was rejected; its text is the body of the `400` response.
#[derive(Debug, Clone, PartialEq, Eq)]
pub struct ValidationError(String);

impl View for ValidationError {
    type V = Seq<char>;

    closed spec fn view(&self) -> Seq<char> {
        self.0@
    }
}

/// The text of a rejection of `field` for `reason`.
pub open spec fn invalid(field: Seq<char>, reason: Seq<char>) -> Seq<char> {
    "Invalid `"@ + field + "`: "@ + reason
}

impl ValidationError {
    pub fn new(field: &str, reason: &str) -> (e: Self)
        ensures
            e@ == invalid(field@, reason@),
    {
        let mut text = String::from_str("Invalid `");
        text.append(field);
        text.append("`: ");
        text.append(reason);
        ValidationError(text)
    }

    /// The text of the rejection (what `Display` prints).
    pub fn to_string(&self) -> (s: String)
        ensures
            s@ == self@,
    {
        self.0.clone()
    }
}

/// Implemented by every request view that the HTTP layer validates before the handler runs.
pub trait Validate {
    /// Returns the first field that does not satisfy its constraints.
    fn validate(&self) -> Result<(), ValidationError>;
}

/// Unicode's `Cc` category, which `char::is_control` tests.
pub open spec fn is_control_char(c: char) -> bool {
    (c as u32) <= 0x1f || (0x7f <= (c as u32) && (c as u32) <= 0x9f)
}

/// Unicode's `White_Space` property, which `char::is_whitespace` (and so `str::trim`) tests.
pub open spec fn is_whitespace_char(c: char) -> bool {
    let v = c as u32;
    (0x09 <= v && v <= 0x0d) || v == 0x20 || v == 0x85 || v == 0xa0 || v == 0x1680 || (0x2000
        <= v && v <= 0x200a) || v == 0x2028 || v == 0x2029 || v == 0x202f || v == 0x205f || v
        == 0x3000
}

/// The line breaks and the tab, the control characters a description may hold.
pub open spec fn is_line_control(c: char) -> bool {
    c == '\n' || c == '\r' || c == '\t'
}

/// `value.trim().is_empty()`: nothing but white space.
pub open spec fn is_blank(value: Seq<char>) -> bool {
    forall|i: int| 0 <= i < value.len() ==> is_whitespace_char(#[trigger] value[i])
}

pub open spec fn has_control(value: Seq<char>) -> bool {
    exists|i: int| 0 <= i < value.len() && is_control_char(#[trigger] value[i])
}

pub open spec fn has_other_control(value: Seq<char>) -> bool {
    exists|i: int|
        0 <= i < value.len() && is_control_char(#[trigger] value[i]) && !is_line_control(value[i])
}

pub open spec fn has_markup(value: Seq<char>) -> bool {
    exists|i: int| 0 <= i < value.len() && (#[trigger] value[i] == '<' || value[i] == '>')
}

pub open spec fn empty_reason() -> Seq<char> {
    "must not be empty"@
}

pub open spec fn length_reason(max: nat) -> Seq<char> {
    "must be at most "@ + decimal(max) + " characters"@
}

pub open spec fn control_reason() -> Seq<char> {
    "must not contain control characters"@
}

pub open spec fn line_control_reason() -> Seq<char> {
    "must not contain control characters other than line breaks and tabs"@
}

pub open spec fn markup_reason() -> Seq<char> {
    "must not contain `<` or `>`"@
}

/// A free text that must also hold something besides white space (a message's content).
pub open spec fn required_description_outcome(field: Seq<char>, value: Seq<char>, max: nat) -> Result<
    (),
    Seq<char>,
> {
    if is_blank(value) {
        Err(invalid(field, empty_reason()))
    } else {
        description_outcome(field, value, max)
    }
}

/// What a check answers, with the rejection taken by its text.
pub open spec fn outcome(r: Result<(), ValidationError>) -> Result<(), Seq<char>> {
    match r {
        Ok(_) => Ok(()),
        Err(e) => Err(e@),
    }
}

/// A short label: not blank, at most `max` characters, no control character, no `<` / `>`;
/// the first broken rule names the rejection.
pub open spec fn label_outcome(field: Seq<char>, value: Seq<char>, max: nat) -> Result<
    (),
    Seq<char>,
> {
    if is_blank(value) {
        Err(invalid(field, empty_reason()))
    } else if value.len() > max {
        Err(invalid(field, length_reason(max)))
    } else if has_control(value) {
        Err(invalid(field, control_reason()))
    } else if has_markup(value) {
        Err(invalid(field, markup_reason()))
    } else {
        Ok(())
    }
}

/// A free text: at most `max` characters, no control character but line breaks and tabs, no
/// `<` / `>`.
pub open spec fn description_outcome(field: Seq<char>, value: Seq<char>, max: nat) -> Result<
    (),
    Seq<char>,
> {
    if value.len() > max {
        Err(invalid(field, length_reason(max)))
    } else if has_other_control(value) {
        Err(invalid(field, line_control_reason()))
    } else if has_markup(value) {
        Err(invalid(field, markup_reason()))
    } else {
        Ok(())
    }
}

/// An opaque value: at most `max` characters and no control character.
pub open spec fn opaque_outcome(field: Seq<char>, value: Seq<char>, max: nat) -> Result<
    (),
    Seq<char>,
> {
    if value.len() > max {
        Err(invalid(field, length_reason(max)))
    } else if has_control(value) {
        Err(invalid(field, control_reason()))
    } else {
        Ok(())
    }
}

fn is_control(c: char) -> (r: bool)
    ensures
        r == is_control_char(c),
{
    let v = c as u32;
    v <= 0x1f || (0x7f <= v && v <= 0x9f)
}

fn is_whitespace(c: char) -> (r: bool)
    ensures
        r == is_whitespace_char(c),
{
    let v = c as u32;
    (0x09 <= v && v <= 0x0d) || v == 0x20 || v == 0x85 || v == 0xa0 || v == 0x1680 || (0x2000 <= v
        && v <= 0x200a) || v == 0x2028 || v == 0x2029 || v == 0x202f || v == 0x205f || v == 0x3000
}

pub(crate) fn is_blank_str(value: &str) -> (r: bool)
    ensures
        r == is_blank(value@),
{
    let mut blank = true;
    for c in it: value.chars()
        invariant
            it.seq() == value@,
            blank == forall|i: int| 0 <= i < it.index() ==> is_whitespace_char(#[trigger] value@[i]),
    {
        if !is_whitespace(c) {
            blank = false;
        }
    }
    blank
}

fn check_length(field: &str, value: &str, max: usize) -> (r: Result<(), ValidationError>)
    ensures
        outcome(r) == (if value@.len() > max {
            Err(invalid(field@, length_reason(max as nat)))
        } else {
            Ok(())
        }),
{
    if value.unicode_len() > max {
        let mut reason = String::from_str("must be at most ");
        let n = decimal_string(max as u64);
        reason.append(n.as_str());
        reason.append(" characters");
        return Err(ValidationError::new(field, reason.as_str()));
    }
    Ok(())
}

fn check_no_control(field: &str, value: &str) -> (r: Result<(), ValidationError>)
    ensures
        outcome(r) == (if has_control(value@) {
            Err(invalid(field@, control_reason()))
        } else {
            Ok(())
        }),
{
    let mut found = false;
    for c in it: value.chars()
        invariant
            it.seq() == value@,
            found == exists|i: int| 0 <= i < it.index() && is_control_char(#[trigger] value@[i]),
    {
        if is_control(c) {
            found = true;
        }
    }
    if found {
        return Err(ValidationError::new(field, "must not contain control characters"));
    }
    Ok(())
}

fn check_no_markup(field: &str, value: &str) -> (r: Result<(), ValidationError>)
    ensures
        outcome(r) == (if has_markup(value@) {
            Err(invalid(field@, markup_reason()))
        } else {
            Ok(())
        }),
        r is Ok <==> (!value@.contains('<') && !value@.contains('>')),
{
    proof {
        markup_is_angle_brackets(value@);
    }
    let mut found = false;
    for c in it: value.chars()
        invariant
            it.seq() == value@,
            found == exists|i: int|
                0 <= i < it.index() && (#[trigger] value@[i] == '<' || value@[i] == '>'),
    {
        if c == '<' || c == '>' {
            found = true;
        }
    }
    if found {
        return Err(ValidationError::new(field, "must not contain `<` or `>`"));
    }
    Ok(())
}

/// A short label displayed as-is by the fronts (person name, role or group name): not blank, at
/// most `max` characters, no control character and no `<` / `>`.
pub fn check_label(field: &str, value: &str, max: usize) -> (r: Result<(), ValidationError>)
    ensures
        outcome(r) == label_outcome(field@, value@, max as nat),
        r is Ok <==> (!is_blank(value@) && value@.len() <= max && !has_control(value@)
            && !value@.contains('<') && !value@.contains('>')),
{
    proof {
        label_accepted_iff_rules_hold(field@, value@, max as nat);
    }
    if is_blank_str(value) {
        return Err(ValidationError::new(field, "must not be empty"));
    }
    check_length(field, value, max)?;
    check_no_control(field, value)?;
    check_no_markup(field, value)
}

/// A free-text description: may be empty, at most `max` characters, line breaks and tabs
/// allowed, no other control character and no `<` / `>`.
pub fn check_description(field: &str, value: &str, max: usize) -> (r: Result<(), ValidationError>)
    ensures
        outcome(r) == description_outcome(field@, value@, max as nat),
        r is Ok <==> (value@.len() <= max && !has_other_control(value@) && !value@.contains('<')
            && !value@.contains('>')),
{
    proof {
        description_accepted_iff_rules_hold(field@, value@, max as nat);
    }
    check_length(field, value, max)?;
    let mut found = false;
    for c in it: value.chars()
        invariant
            it.seq() == value@,
            found == exists|i: int|
                0 <= i < it.index() && is_control_char(#[trigger] value@[i]) && !is_line_control(
                    value@[i],
                ),
    {
        if is_control(c) && !(c == '\n' || c == '\r' || c == '\t') {
            found = true;
        }
    }
    if found {
        return Err(
            ValidationError::new(
                field,
                "must not contain control characters other than line breaks and tabs",
            ),
        );
    }
    check_no_markup(field, value)
}

/// An opaque value only compared or stored as text (token, credential, `device_info`, search
/// filter): at most `max` characters and no control character (Postgres rejects NUL bytes).
pub fn check_opaque(field: &str, value: &str, max: usize) -> (r: Result<(), ValidationError>)
    ensures
        outcome(r) == opaque_outcome(field@, value@, max as nat),
{
    check_length(field, value, max)?;
    check_no_control(field, value)
}

/// Runs `check` on `value` when it is present.
pub fn check_optional<F>(value: Option<&str>, check: F) -> (r: Result<(), ValidationError>) where
    F: FnOnce(&str) -> Result<(), ValidationError>,

    requires
        value matches Some(v) ==> call_requires(check, (v,)),
    ensures
        value is None ==> r is Ok,
        value matches Some(v) ==> call_ensures(check, (v,), r),
{
    match value {
        Some(v) => check(v),
        None => Ok(()),
    }
}

/// The markup rule is about `<` and `>` and nothing else: a value holds markup exactly when
/// one of them occurs in it.
pub proof fn markup_is_angle_brackets(value: Seq<char>)
    ensures
        has_markup(value) <==> (value.contains('<') || value.contains('>')),
{
    if has_markup(value) {
        let i = choose|i: int| 0 <= i < value.len() && (#[trigger] value[i] == '<' || value[i] == '>');
        assert(value[i] == '<' || value[i] == '>');
    }
    if value.contains('<') {
        let i = choose|i: int| 0 <= i < value.len() && value[i] == '<';
        assert(value[i] == '<');
    }
    if value.contains('>') {
        let i = choose|i: int| 0 <= i < value.len() && value[i] == '>';
        assert(value[i] == '>');
    }
}

/// A label is accepted exactly when it breaks none of its four rules: it holds something besides
/// white space, has at most `max` characters, no control character, and neither `<` nor `>`.
pub proof fn label_accepted_iff_rules_hold(field: Seq<char>, value: Seq<char>, max: nat)
    ensures
        label_outcome(field, value, max) is Ok <==> (!is_blank(value) && value.len() <= max
            && !has_control(value) && !value.contains('<') && !value.contains('>')),
{
    markup_is_angle_brackets(value);
}

/// A description is accepted exactly when it has at most `max` characters, no control character
/// but line breaks and tabs, and neither `<` nor `>`; any other character (an apostrophe, an
/// ampersand, an accented letter) is allowed.
pub proof fn description_accepted_iff_rules_hold(field: Seq<char>, value: Seq<char>, max: nat)
    ensures
        description_outcome(field, value, max) is Ok <==> (value.len() <= max
            && !has_other_control(value) && !value.contains('<') && !value.contains('>')),
        required_description_outcome(field, value, max) is Ok <==> (!is_blank(value)
            && value.len() <= max && !has_other_control(value) && !value.contains('<')
            && !value.contains('>')),
{
    markup_is_angle_brackets(value);
}

/// A label that passes is also a valid description and a valid opaque value, under the same
/// bound.
pub proof fn label_is_description_and_opaque(field: Seq<char>, value: Seq<char>, max: nat)
    requires
        label_outcome(field, value, max) is Ok,
    ensures
        description_outcome(field, value, max) is Ok,
        opaque_outcome(field, value, max) is Ok,
{
    if has_other_control(value) {
        let i = choose|i: int|
            0 <= i < value.len() && is_control_char(#[trigger] value[i]) && !is_line_control(
                value[i],
            );
        assert(is_control_char(value[i]));
    }
}

/// Raising the bound never turns an accepted value into a rejected one.
pub proof fn checks_are_monotonic_in_max(field: Seq<char>, value: Seq<char>, max: nat, larger: nat)
    requires
        max <= larger,
    ensures
        label_outcome(field, value, max) is Ok ==> label_outcome(field, value, larger) is Ok,
        description_outcome(field, value, max) is Ok ==> description_outcome(
            field,
            value,
            larger,
        ) is Ok,
        opaque_outcome(field, value, max) is Ok ==> opaque_outcome(field, value, larger) is Ok,
{
}

/// Every rejection names its field: its text starts with "Invalid `field`: ".
pub proof fn rejection_names_field(field: Seq<char>, value: Seq<char>, max: nat)
    ensures
        label_outcome(field, value, max) matches Err(t) ==> t.take(
            ("Invalid `"@ + field + "`: "@).len() as int,
        ) == "Invalid `"@ + field + "`: "@,
        description_outcome(field, value, max) matches Err(t) ==> t.take(
            ("Invalid `"@ + field + "`: "@).len() as int,
        ) == "Invalid `"@ + field + "`: "@,
        opaque_outcome(field, value, max) matches Err(t) ==> t.take(
            ("Invalid `"@ + field + "`: "@).len() as int,
        ) == "Invalid `"@ + field + "`: "@,
{
    let p = "Invalid `"@ + field + "`: "@;
    assert forall|reason: Seq<char>| (#[trigger] (p + reason)).take(p.len() as int) == p by {
        assert((p + reason).take(p.len() as int) =~= p);
    }
}

/// A `Validated*` extractor's value, once it passed [`Validate::validate`].
pub struct ValidatedJson<T>(pub T);

impl<T> ValidatedJson<T> {
    pub fn into_inner(self) -> (r: T)
        ensures
            r == self.0,
    {
        self.0
    }
}

/// A validated query string.
pub struct ValidatedQuery<T>(pub T);

impl<T> ValidatedQuery<T> {
    pub fn into_inner(self) -> (r: T)
        ensures
            r == self.0,
    {
        self.0
    }
}

} // verus!
