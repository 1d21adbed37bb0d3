use message_api::endpoints::v1::id::messages::id::patch::view::PatchMessageView;
use message_api::endpoints::v1::id::messages::post::view::PostMessageView;
use message_api::endpoints::v1::post::view::CreateChatView;
use message_api::endpoints::validation::{
    check_description, check_label, check_opaque, check_optional, Validate, ValidatedJson,
    ValidatedQuery, ValidationError, MAX_MESSAGE_LENGTH, MAX_TITLE_LENGTH,
};

#[test]
fn label_rejects_blank_long_control_and_markup() {
    assert!(check_label("name", "Service urbanisme", MAX_TITLE_LENGTH).is_ok());
    assert!(check_label("name", "  ", MAX_TITLE_LENGTH).is_err());
    assert!(check_label("name", &"a".repeat(151), MAX_TITLE_LENGTH).is_err());
    assert!(check_label("name", "Service\0", MAX_TITLE_LENGTH).is_err());
    assert!(check_label("name", "<script>alert(1);</script>", MAX_TITLE_LENGTH).is_err());
}

#[test]
fn label_counts_characters_not_bytes() {
    assert!(check_label("name", &"é".repeat(150), MAX_TITLE_LENGTH).is_ok());
}

#[test]
fn description_allows_line_breaks_only() {
    assert!(check_description("content", "Bonjour,\nà demain", MAX_MESSAGE_LENGTH).is_ok());
    assert!(check_description("content", "a\0b", MAX_MESSAGE_LENGTH).is_err());
    assert!(check_description("content", "<b>", MAX_MESSAGE_LENGTH).is_err());
    assert!(check_description("content", &"a".repeat(5001), MAX_MESSAGE_LENGTH).is_err());
}

#[test]
fn optional_skips_absent_values() {
    assert!(check_optional(None, |v| check_label("name", v, MAX_TITLE_LENGTH)).is_ok());
    assert!(check_optional(Some(" "), |v| check_label("name", v, MAX_TITLE_LENGTH)).is_err());
}

fn text_of(r: Result<(), ValidationError>) -> String {
    r.unwrap_err().to_string()
}

#[test]
fn error_texts_name_the_field_and_the_rule() {
    assert_eq!(
        ValidationError::new("name", "is wrong").to_string(),
        "Invalid `name`: is wrong"
    );
    assert_eq!(
        text_of(check_label("name", " \t ", MAX_TITLE_LENGTH)),
        "Invalid `name`: must not be empty"
    );
    assert_eq!(
        text_of(check_label("name", &"a".repeat(151), MAX_TITLE_LENGTH)),
        "Invalid `name`: must be at most 150 characters"
    );
    assert_eq!(
        text_of(check_label("name", "Service\0", MAX_TITLE_LENGTH)),
        "Invalid `name`: must not contain control characters"
    );
    assert_eq!(
        text_of(check_label("name", "a > b", MAX_TITLE_LENGTH)),
        "Invalid `name`: must not contain `<` or `>`"
    );
    assert_eq!(
        text_of(check_description("content", "a\u{7f}b", MAX_MESSAGE_LENGTH)),
        "Invalid `content`: must not contain control characters other than line breaks and tabs"
    );
    assert_eq!(
        text_of(check_description("content", &"a".repeat(5001), MAX_MESSAGE_LENGTH)),
        "Invalid `content`: must be at most 5000 characters"
    );
    assert_eq!(
        text_of(check_opaque("token", "ab", 1)),
        "Invalid `token`: must be at most 1 characters"
    );
}

#[test]
fn rules_are_checked_in_order() {
    // Too long and holding a control character: the length is reported first.
    assert_eq!(
        text_of(check_label("name", "\0\0\0", 2)),
        "Invalid `name`: must be at most 2 characters"
    );
    // A control character and markup: the control character comes first.
    assert_eq!(
        text_of(check_label("name", "<\u{1}", 10)),
        "Invalid `name`: must not contain control characters"
    );
}

#[test]
fn blank_means_unicode_white_space_only() {
    assert!(check_label("name", "\u{a0}\u{3000}\u{2009}\n", 10).is_err());
    assert!(check_label("name", "\u{200b}", 10).is_ok());
    assert!(check_label("name", "", 10).is_err());
}

#[test]
fn control_characters_are_the_cc_category() {
    assert!(check_opaque("token", "a\u{9f}", 10).is_err());
    assert!(check_opaque("token", "a\u{a0}", 10).is_ok());
    assert!(check_opaque("token", "a\nb", 10).is_err());
    assert!(check_description("content", "a\r\n\tb", 10).is_ok());
}

#[test]
fn a_valid_label_is_a_valid_description_and_opaque_value() {
    for value in ["Service urbanisme", "é", "a-b_c", "日本"] {
        assert!(check_label("f", value, 20).is_ok());
        assert!(check_description("f", value, 20).is_ok());
        assert!(check_opaque("f", value, 20).is_ok());
    }
}

#[test]
fn a_larger_bound_keeps_accepting() {
    assert!(check_label("f", "abc", 3).is_ok());
    assert!(check_label("f", "abc", 4).is_ok());
    assert!(check_label("f", "abc", 2).is_err());
    assert!(check_description("f", "", 0).is_ok());
    assert!(check_opaque("f", "", 0).is_ok());
}

#[test]
fn optional_runs_the_check_on_present_values() {
    assert!(check_optional(Some("ok"), |v| check_opaque("f", v, 2)).is_ok());
    assert_eq!(
        text_of(check_optional(Some("toolong"), |v| check_opaque("f", v, 2))),
        "Invalid `f`: must be at most 2 characters"
    );
}

#[test]
fn create_chat_allows_an_empty_title_only() {
    assert!(CreateChatView::new(vec![1], String::new()).validate().is_ok());
    assert!(CreateChatView::new(vec![1], "Urbanisme".to_string()).validate().is_ok());
    assert_eq!(
        text_of(CreateChatView::new(vec![], " ".to_string()).validate()),
        "Invalid `name`: must not be empty"
    );
    assert!(CreateChatView::new(vec![], "a".repeat(151)).validate().is_err());
}

#[test]
fn message_content_must_not_be_blank() {
    assert_eq!(
        text_of(PostMessageView::new(None, "  \n".to_string()).validate()),
        "Invalid `content`: must not be empty"
    );
    assert!(PostMessageView::new(Some(3), "Bonjour\nà tous".to_string()).validate().is_ok());
    assert_eq!(
        text_of(PatchMessageView::new("").validate()),
        "Invalid `content`: must not be empty"
    );
    assert!(PatchMessageView::new("<i>").validate().is_err());
    assert!(PatchMessageView::new("Nouveau texte").validate().is_ok());
}

#[test]
fn extractors_hand_back_their_value() {
    assert_eq!(ValidatedJson(5u8).into_inner(), 5);
    assert_eq!(ValidatedQuery("q").into_inner(), "q");
}
