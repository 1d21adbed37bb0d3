use message_api::database::chats::access::view::ChatAccessQueryView;
use message_api::database::chats::add_message_to_chat::view::PostMessageInChatQueryView;
use message_api::database::chats::add_users_to_chat::view::AddMembersToChatQueryView;
use message_api::database::chats::create_chat::view::CreateChatQueryView;
use message_api::database::chats::delete_chat::view::DeleteChatQueryView;
use message_api::database::chats::delete_empty_chat::view::DeleteEmptyChatQueryView;
use message_api::database::chats::delete_message_from_chat::view::DeleteMessageQueryView;
use message_api::database::chats::get_chat::view::GetChatQueryView;
use message_api::database::chats::get_chat_users::view::GetChatMembersQueryView;
use message_api::database::chats::get_chats::view::GetChatsQueryView;
use message_api::database::chats::message_owner::view::MessageOwnerQueryView;
use message_api::database::chats::patch_message_in_chat::view::PatchMessageQueryView;
use message_api::database::chats::remove_user_from_chat::view::RemoveMemberFromChatQueryView;
use message_api::database::chats::reset_unread_count::view::ResetUnreadCountQueryView;
use message_api::database::query::QueryParam;
use message_api::text::{
    chars_of, contains_text, decimal_string, id_list_string, ids_of_list_str, parse_i32_chars,
    signed_decimal_string,
};

#[test]
fn decimal_writing() {
    assert_eq!(decimal_string(0), "0");
    assert_eq!(decimal_string(7), "7");
    assert_eq!(decimal_string(1234), "1234");
    assert_eq!(decimal_string(u64::MAX), "18446744073709551615");
    assert_eq!(signed_decimal_string(-42), "-42");
    assert_eq!(signed_decimal_string(i64::MIN), "-9223372036854775808");
}

#[test]
fn i32_parsing_follows_str_parse() {
    for text in ["0", "42", "+42", "-42", "007", "2147483647", "-2147483648", "", "+", "-", "4a", " 4", "2147483648", "-2147483649", "99999999999"] {
        let chars = chars_of(text);
        assert_eq!(parse_i32_chars(&chars), text.parse::<i32>().ok(), "{text:?}");
    }
}

#[test]
fn id_lists_round_trip() {
    assert_eq!(id_list_string(&vec![1, 22, 333]), "1,22,333");
    assert_eq!(ids_of_list_str("1,22,333"), vec![1, 22, 333]);
    assert_eq!(ids_of_list_str(""), Vec::<i32>::new());
    assert_eq!(ids_of_list_str("1,,x,-3"), vec![1, -3]);
    let view = AddMembersToChatQueryView::new(5, vec![42, 51, 7]);
    assert_eq!(view.chat_id(), 5);
    assert_eq!(view.user_id(), vec![42, 51, 7]);
    assert!(!view.is_empty());
    assert_eq!(
        view.query_params(),
        &[QueryParam::I32(5), QueryParam::Text("42,51,7".to_string())]
    );
    assert_eq!(view.to_string(), "AddMembersToChatQueryView: chat_id=5 user_id=[42, 51, 7]");
}

#[test]
fn empty_member_list_is_empty() {
    let view = AddMembersToChatQueryView::new(5, vec![]);
    assert!(view.is_empty());
    assert_eq!(view.user_id(), Vec::<i32>::new());
}

#[test]
fn ids_beyond_postgres_integer_are_dropped_when_read_back() {
    let view = AddMembersToChatQueryView::new(1, vec![3_000_000_000, 4]);
    assert_eq!(view.user_id(), vec![4]);
}

#[test]
fn contains_finds_infixes() {
    assert!(contains_text("violates fk conversation_id_fkey", "conversation_id"));
    assert!(!contains_text("violates fk user_id_fkey", "conversation_id"));
    assert!(contains_text("abc", ""));
    assert!(!contains_text("", "a"));
    assert!(contains_text("conversation_id", "conversation_id"));
}

#[test]
fn ids_travel_as_postgres_integers() {
    let view = ChatAccessQueryView::new(5, 42);
    assert_eq!(view.query_params(), &[QueryParam::I32(5), QueryParam::I32(42)]);
    assert_eq!((view.chat_id(), view.user_id()), (5, 42));
    assert_eq!(view.to_string(), "ChatAccessQueryView: chat_id=5 user_id=42");
    // Beyond `i32::MAX` the id wraps, as `as i32` does.
    let wrapped = DeleteChatQueryView::new(1 << 32 | 9);
    assert_eq!(wrapped.query_params(), &[QueryParam::I32(9)]);
    assert_eq!(DeleteChatQueryView::new(u64::MAX).chat_id(), u64::MAX);
}

#[test]
fn every_query_carries_its_parameters() {
    let post = PostMessageInChatQueryView::new(3, 4, "Bonjour");
    assert_eq!((post.chat_id(), post.sender(), post.message()), (3, 4, "Bonjour"));
    assert_eq!(post.to_string(), "PostMessageInChatQueryView: chat_id=3 sender=4 message=Bonjour");
    assert_eq!(
        post.query_sql(),
        "INSERT INTO messages (conversation_id, owner_id, content) VALUES ($1, $2, $3) RETURNING id"
    );

    let create = CreateChatQueryView::new("Urbanisme", None);
    assert_eq!((create.title(), create.group_id()), ("Urbanisme", None));
    assert_eq!(create.to_string(), "CreateChatQueryView: title=Urbanisme group_id=0");
    assert_eq!(CreateChatQueryView::new("G", Some(-3)).to_string(), "CreateChatQueryView: title=G group_id=-3");

    assert_eq!(DeleteChatQueryView::new(8).to_string(), "DeleteChatQueryView: chat_id=8");
    assert_eq!(DeleteEmptyChatQueryView::new(8).query_params(), &[QueryParam::I32(8)]);
    assert_eq!(DeleteEmptyChatQueryView::new(8).to_string(), "DeleteEmptyChatQueryView: [I32(8)]");
    assert_eq!(DeleteMessageQueryView::new(9).message_id(), 9);
    assert_eq!(DeleteMessageQueryView::new(9).to_string(), "DeleteMessageQueryView: message_id=9");
    assert_eq!(GetChatQueryView::new(2).chat_id(), 2);
    assert_eq!(GetChatQueryView::new(2).to_string(), "GetChatQueryView: chat_id=2");
    assert_eq!(GetChatsQueryView::new(6).user_id(), 6);
    assert_eq!(GetChatsQueryView::new(6).to_string(), "GetChatsQueryView: user_id=6");

    let owner = MessageOwnerQueryView::new(5, 118);
    assert_eq!(owner.query_params(), &[QueryParam::I64(118), QueryParam::I32(5)]);
    assert_eq!(owner.to_string(), "MessageOwnerQueryView: [I64(118), I32(5)]");

    let patch = PatchMessageQueryView::new(11, "Texte");
    assert_eq!((patch.message_id(), patch.content()), (11, "Texte"));
    assert_eq!(patch.to_string(), "PatchMessageQueryView: message_id=11, content=Texte");

    let remove = RemoveMemberFromChatQueryView::new(5, 42);
    assert_eq!((remove.chat_id(), remove.user_id()), (5, 42));
    assert_eq!(remove.to_string(), "RemoveMemberFromChatQueryView: chat_id=5 user_id=42");

    let members = GetChatMembersQueryView::new(5);
    assert_eq!(members.chat_id(), 5);
    assert_eq!(members.get_request(), "SELECT user_id from conversation_members WHERE conversation_id = $1");
    assert_eq!(members.to_string(), "GetChatMembersQueryView: chat_id=5");

    let reset = ResetUnreadCountQueryView::new(5, 42);
    assert_eq!((reset.chat_id(), reset.user_id()), (5, 42));
    assert_eq!(reset.to_string(), "ResetUnreadCountQueryView: chat_id=5 user_id=42");
}

#[test]
fn query_param_accessors() {
    assert_eq!(QueryParam::I32(-4).as_i32(), -4);
    assert_eq!(QueryParam::I64(1 << 40).as_i64(), 1 << 40);
    assert_eq!(QueryParam::Text("x".to_string()).as_text(), "x");
    assert_eq!(QueryParam::OptionI32(Some(2)).as_option_i32(), Some(2));
}
