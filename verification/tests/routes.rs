use message_api::database::chats::access::view::ChatAccess;
use message_api::database::chats::get_chat::view::{Message, Timestamp};
use message_api::database::chats::get_chats::view::GetChatsQueryResultView;
use message_api::database::failure::DbFailure;
use message_api::database::query::QueryParam;
use message_api::endpoints::v1::get::endpoint::{trigger_get_chats, GetChatsError};
use message_api::endpoints::v1::get::view::ChatView;
use message_api::endpoints::v1::id::access::{
    require_chat_access, require_message_author, AccessDenied, MessageDenied,
};
use message_api::endpoints::v1::id::delete::endpoint::{
    delete_chat_after_access, delete_chat_start, trigger_delete_chat, DeleteChatError,
    DeleteChatStep,
};
use message_api::endpoints::v1::id::get::endpoint::{
    get_chat_after_access, get_chat_start, trigger_get_chat, GetChatError, GetChatStep,
};
use message_api::endpoints::v1::id::get::view::MessageView;
use message_api::endpoints::v1::id::messages::id::delete::endpoint::{
    delete_message_after_access, delete_message_after_author, delete_message_start,
    trigger_delete_message, DeleteMessageError, DeleteMessageStep,
};
use message_api::endpoints::v1::id::messages::id::patch::endpoint::{
    patch_message_after_access, patch_message_after_author, patch_message_start,
    trigger_patch_message, PatchMessageError, PatchMessageStep,
};
use message_api::endpoints::v1::id::messages::id::patch::view::PatchMessageView;
use message_api::endpoints::v1::id::messages::id::MessagePathParams;
use message_api::endpoints::v1::id::messages::post::endpoint::{
    post_message_after_access, post_message_start, trigger_post_message, PostMessageStep,
    PosteMessageError,
};
use message_api::endpoints::v1::id::messages::post::view::{PostMessageResultView, PostMessageView};
use message_api::endpoints::v1::id::users::get::endpoint::{
    get_chat_users_after_access, get_chat_users_start, trigger_get_chat_users,
    GetChatUsersError, GetChatUsersStep,
};
use message_api::endpoints::v1::id::users::get::view::{GetUsersView, User};
use message_api::endpoints::v1::id::users::id::delete::endpoint::{
    remove_user_from_chat_after_access, remove_user_from_chat_after_drop,
    remove_user_from_chat_start, trigger_remove_user_from_chat, RemoveUserFromChatError,
    RemoveUserFromChatStep,
};
use message_api::endpoints::v1::id::users::id::UsersPathParams;
use message_api::endpoints::v1::id::users::post::endpoint::{
    add_users_to_chat_after_access, add_users_to_chat_start, trigger_add_users_to_chat,
    AddUsersToChatError, AddUsersToChatStep,
};
use message_api::endpoints::v1::id::users::post::view::{AddUsersToChat, AddUsersToChatResultView};
use message_api::endpoints::v1::id::ChatPathParams;
use message_api::endpoints::v1::post::endpoint::{
    create_chat_after_drop, create_chat_after_insert, create_chat_start, trigger_create_chat,
    CreateChatError, CreateChatStep,
};
use message_api::endpoints::v1::post::view::{CreateChatResultView, CreateChatView};
use message_api::endpoints::v1::stream::endpoint::{
    keep_alive_after_ping, keep_alive_after_unregister, keep_alive_after_wait, keep_alive_start,
    ping_comment, KeepAliveStep, PING_INTERVAL_SECS,
};
use message_api::sse::state::{chat_signals, ChatEvent, ChatSignal};

const MEMBER: ChatAccess = ChatAccess { chat_exists: true, is_member: true, is_admin: false };
const ADMIN: ChatAccess = ChatAccess { chat_exists: true, is_member: false, is_admin: true };
const OUTSIDER: ChatAccess = ChatAccess { chat_exists: true, is_member: false, is_admin: false };
const MISSING: ChatAccess = ChatAccess { chat_exists: false, is_member: false, is_admin: true };

#[test]
fn access_needs_an_existing_chat_and_membership_or_admin() {
    assert_eq!(require_chat_access(Ok(MEMBER)), Ok(false));
    assert_eq!(require_chat_access(Ok(ADMIN)), Ok(true));
    assert_eq!(require_chat_access(Ok(OUTSIDER)), Err(AccessDenied::NotFound));
    assert_eq!(require_chat_access(Ok(MISSING)), Err(AccessDenied::NotFound));
    assert_eq!(require_chat_access(Err(DbFailure::Other)), Err(AccessDenied::DatabaseError));
}

#[test]
fn authorship_check() {
    assert_eq!(require_message_author(Ok(42), 42, false), Ok(()));
    assert_eq!(require_message_author(Ok(41), 42, false), Err(MessageDenied::Forbidden));
    assert_eq!(require_message_author(Ok(41), 42, true), Ok(()));
    // A deleted author reads as 0: nobody but an administrator may act on the message.
    assert_eq!(require_message_author(Ok(0), 42, false), Err(MessageDenied::Forbidden));
    assert_eq!(require_message_author(Err(DbFailure::NotFound), 42, true), Err(MessageDenied::NotFound));
    assert_eq!(
        require_message_author(Err(DbFailure::UniqueViolation("x".to_string())), 42, false),
        Err(MessageDenied::DatabaseError)
    );
}

#[test]
fn get_chats_shows_titles_or_empty_names() {
    let rows = vec![
        GetChatsQueryResultView { id: 5, title: Some("Urbanisme".to_string()), unread_count: 3 },
        GetChatsQueryResultView { id: 6, title: None, unread_count: 0 },
    ];
    let view = trigger_get_chats(Ok(rows)).unwrap();
    let chats = view.chats();
    assert_eq!(chats.len(), 2);
    assert_eq!((chats[0].id(), chats[0].name(), chats[0].unread_count()), (5, "Urbanisme", 3));
    assert_eq!((chats[1].id(), chats[1].name(), chats[1].unread_count()), (6, "", 0));
    assert_eq!(trigger_get_chats(Err(DbFailure::Other)).unwrap_err(), GetChatsError::DatabaseError);
    let single = ChatView::from(GetChatsQueryResultView { id: 1, title: None, unread_count: 2 });
    assert_eq!(single.name(), "");
}

#[test]
fn get_chat_shows_messages_in_order_without_sitation() {
    let at = Timestamp { seconds: 1_789_000_000, nanos: 5 };
    let messages = vec![
        Message { id: 101, owner_id: 42, content: "Bonjour".to_string(), created_at: at },
        Message { id: 102, owner_id: 51, content: "Salut".to_string(), created_at: at },
    ];
    let view = trigger_get_chat(Ok(messages)).unwrap();
    let shown = view.messages();
    assert_eq!(shown.len(), 2);
    assert_eq!((shown[0].id(), shown[0].content(), shown[0].sender_id()), (101, "Bonjour", 42));
    assert_eq!(shown[1].sitation(), None);
    assert_eq!(*shown[1].created_at(), at);
    assert_eq!(trigger_get_chat(Err(DbFailure::NotFound)).unwrap_err(), GetChatError::DatabaseError);
    let one = MessageView::from(Message { id: 1, owner_id: 2, content: "x".to_string(), created_at: at });
    assert_eq!((one.id(), one.sender_id()), (1, 2));
    assert_eq!(MessageView::new(1, "y", 2, at, Some(9)).sitation(), Some(9));
}

#[test]
fn delete_chat_answers() {
    assert_eq!(trigger_delete_chat(Ok(5)), Ok(()));
    assert_eq!(trigger_delete_chat(Err(DbFailure::NotFound)), Err(DeleteChatError::UnknownEvent));
    assert_eq!(trigger_delete_chat(Err(DbFailure::Other)), Err(DeleteChatError::DatabaseError));
    assert_eq!(DeleteChatError::UnknownEvent.status_code(), 404);
    assert_eq!(DeleteChatError::NothingToDelete.status_code(), 200);
    assert_eq!(DeleteChatError::NothingToDelete.to_string(), "Nothing to delete.");
}

#[test]
fn only_members_and_administrators_read_a_chat() {
    match get_chat_start(5, 42) {
        GetChatStep::CheckAccess(q) => assert_eq!((q.chat_id(), q.user_id()), (5, 42)),
        other => panic!("{other:?}"),
    }
    for access in [MEMBER, ADMIN] {
        match get_chat_after_access(5, Ok(access)) {
            GetChatStep::ReadMessages(q) => assert_eq!(q.chat_id(), 5),
            other => panic!("{other:?}"),
        }
    }
    for access in [OUTSIDER, MISSING] {
        assert!(matches!(
            get_chat_after_access(5, Ok(access)),
            GetChatStep::Done(Err(GetChatError::UnknownChat))
        ));
    }
    assert!(matches!(
        get_chat_after_access(5, Err(DbFailure::Other)),
        GetChatStep::Done(Err(GetChatError::DatabaseError))
    ));
}

#[test]
fn only_administrators_delete_a_chat() {
    match delete_chat_start(5, 42) {
        DeleteChatStep::CheckAccess(q) => assert_eq!((q.chat_id(), q.user_id()), (5, 42)),
        other => panic!("{other:?}"),
    }
    match delete_chat_after_access(5, Ok(ADMIN)) {
        DeleteChatStep::Delete(q) => assert_eq!(q.chat_id(), 5),
        other => panic!("{other:?}"),
    }
    let admin_member = ChatAccess { chat_exists: true, is_member: true, is_admin: true };
    assert!(matches!(delete_chat_after_access(5, Ok(admin_member)), DeleteChatStep::Delete(_)));
    assert!(matches!(
        delete_chat_after_access(5, Ok(MEMBER)),
        DeleteChatStep::Done(Err(DeleteChatError::Forbidden))
    ));
    assert!(matches!(
        delete_chat_after_access(5, Ok(OUTSIDER)),
        DeleteChatStep::Done(Err(DeleteChatError::UnknownEvent))
    ));
    assert!(matches!(
        delete_chat_after_access(5, Ok(MISSING)),
        DeleteChatStep::Done(Err(DeleteChatError::UnknownEvent))
    ));
    assert!(matches!(
        delete_chat_after_access(5, Err(DbFailure::Other)),
        DeleteChatStep::Done(Err(DeleteChatError::DatabaseError))
    ));
    assert_eq!(DeleteChatError::Forbidden.status_code(), 403);
    assert_eq!(DeleteChatError::Forbidden.to_string(), "Only an administrator can delete a chat.");
}

#[test]
fn signals_go_to_the_connected_members() {
    let event = ChatEvent { chat_id: 9, sender_id: 42, message: "Bonjour".to_string() };
    let signals = chat_signals(&event, &[42, 51, 60], &[70, 51, 42, 8]);
    assert_eq!(signals, vec![(51, ChatSignal { chat_id: 9 }), (42, ChatSignal { chat_id: 9 })]);
    assert!(chat_signals(&event, &[42], &[]).is_empty());
    assert!(chat_signals(&event, &[], &[42, 51]).is_empty());
}

#[test]
fn delete_message_flow() {
    let params = MessagePathParams::new(5, 118);
    match delete_message_start(&params, 42) {
        DeleteMessageStep::CheckAccess(q) => assert_eq!(q.query_params(), &[QueryParam::I32(5), QueryParam::I32(42)]),
        other => panic!("{other:?}"),
    }
    match delete_message_after_access(&params, Ok(MEMBER)) {
        DeleteMessageStep::CheckAuthor(q, is_admin) => {
            assert!(!is_admin);
            assert_eq!(q.query_params(), &[QueryParam::I64(118), QueryParam::I32(5)]);
        },
        other => panic!("{other:?}"),
    }
    assert!(matches!(
        delete_message_after_access(&params, Ok(OUTSIDER)),
        DeleteMessageStep::Done(Err(DeleteMessageError::UnknownMessage))
    ));
    match delete_message_after_author(&params, 42, false, Ok(42)) {
        DeleteMessageStep::Delete(q) => assert_eq!(q.message_id(), 118),
        other => panic!("{other:?}"),
    }
    assert!(matches!(
        delete_message_after_author(&params, 42, false, Ok(7)),
        DeleteMessageStep::Done(Err(DeleteMessageError::Forbidden))
    ));
    assert!(matches!(delete_message_after_author(&params, 42, true, Ok(7)), DeleteMessageStep::Delete(_)));
    assert!(matches!(trigger_delete_message(Ok(118)), DeleteMessageStep::Done(Ok(()))));
    assert!(matches!(
        trigger_delete_message(Err(DbFailure::NotFound)),
        DeleteMessageStep::Done(Err(DeleteMessageError::UnknownMessage))
    ));
    assert_eq!(DeleteMessageError::Forbidden.status_code(), 403);
    assert_eq!(DeleteMessageError::Forbidden.to_string(), "Only the author of a message can delete it.");
    assert_eq!(DeleteMessageError::from(AccessDenied::DatabaseError), DeleteMessageError::DatabaseError);
    assert_eq!(DeleteMessageError::from(MessageDenied::NotFound), DeleteMessageError::UnknownMessage);
}

#[test]
fn patch_message_flow() {
    let params = MessagePathParams::new(5, 118);
    assert_eq!((params.chat_id(), params.message_id()), (5, 118));
    assert!(matches!(patch_message_start(&params, 42), PatchMessageStep::CheckAccess(_)));
    assert!(matches!(
        patch_message_after_access(&params, Ok(MISSING)),
        PatchMessageStep::Done(Err(PatchMessageError::UnknownChat))
    ));
    assert!(matches!(patch_message_after_access(&params, Ok(ADMIN)), PatchMessageStep::CheckAuthor(_, true)));
    let view = PatchMessageView::new("Nouveau");
    assert_eq!(view.content(), "Nouveau");
    match patch_message_after_author(&params, 42, false, &view, Ok(42)) {
        PatchMessageStep::Patch(q) => assert_eq!((q.message_id(), q.content()), (118, "Nouveau")),
        other => panic!("{other:?}"),
    }
    assert!(matches!(
        patch_message_after_author(&params, 42, false, &view, Err(DbFailure::NotFound)),
        PatchMessageStep::Done(Err(PatchMessageError::UnknownEvent))
    ));
    assert!(matches!(
        trigger_patch_message(Err(DbFailure::NotFound)),
        PatchMessageStep::Done(Err(PatchMessageError::UnknownEvent))
    ));
    assert!(matches!(trigger_patch_message(Ok(1)), PatchMessageStep::Done(Ok(()))));
    assert_eq!(PatchMessageError::UnknownEvent.status_code(), 400);
    assert_eq!(PatchMessageError::UnknownChat.status_code(), 404);
    assert_eq!(PatchMessageError::Forbidden.to_string(), "Only the author of a message can edit it.");
    assert_eq!(PatchMessageError::from(MessageDenied::Forbidden), PatchMessageError::Forbidden);
    assert_eq!(PatchMessageError::from(AccessDenied::NotFound), PatchMessageError::UnknownChat);
}

#[test]
fn post_message_flow() {
    assert!(matches!(post_message_start(5, 42), PostMessageStep::CheckAccess(_)));
    let view = PostMessageView::new(Some(100), "Bonjour".to_string());
    assert_eq!((view.sitation(), view.content()), (Some(100), "Bonjour"));
    match post_message_after_access(5, 42, &view, Ok(MEMBER)) {
        PostMessageStep::Insert(q) => assert_eq!((q.chat_id(), q.sender(), q.message()), (5, 42, "Bonjour")),
        other => panic!("{other:?}"),
    }
    assert!(matches!(
        post_message_after_access(5, 42, &view, Ok(OUTSIDER)),
        PostMessageStep::Failed(PosteMessageError::UnknownChat)
    ));
    match trigger_post_message(5, 42, &view, Ok(101)) {
        PostMessageStep::Publish(ChatEvent { chat_id, sender_id, message }, result) => {
            assert_eq!((chat_id, sender_id, message.as_str(), result.id()), (5, 42, "Bonjour", 101));
        },
        other => panic!("{other:?}"),
    }
    assert!(matches!(
        trigger_post_message(5, 42, &view, Err(DbFailure::ForeignKeyViolation("fk".to_string()))),
        PostMessageStep::Failed(PosteMessageError::UnknownChat)
    ));
    assert!(matches!(
        trigger_post_message(5, 42, &view, Err(DbFailure::Other)),
        PostMessageStep::Failed(PosteMessageError::DatabaseError)
    ));
    assert_eq!(PostMessageResultView::new(3).id(), 3);
    assert_eq!(PosteMessageError::UnknownChat.to_string(), "Unknown chat.");
    assert_eq!(PosteMessageError::DatabaseError.status_code(), 500);
}

#[test]
fn get_chat_users_flow() {
    assert!(matches!(get_chat_users_start(5, 42), GetChatUsersStep::CheckAccess(_)));
    match get_chat_users_after_access(5, Ok(MEMBER)) {
        GetChatUsersStep::ListMembers(q) => assert_eq!(q.chat_id(), 5),
        other => panic!("{other:?}"),
    }
    assert!(matches!(
        get_chat_users_after_access(5, Ok(OUTSIDER)),
        GetChatUsersStep::Done(Err(GetChatUsersError::NotFound))
    ));
    match trigger_get_chat_users(Ok(vec![42, 51])) {
        GetChatUsersStep::Done(Ok(view)) => {
            let ids: Vec<u64> = view.users().iter().map(User::id).collect();
            assert_eq!(ids, vec![42, 51]);
        },
        other => panic!("{other:?}"),
    }
    assert!(matches!(
        trigger_get_chat_users(Err(DbFailure::Other)),
        GetChatUsersStep::Done(Err(GetChatUsersError::DatabaseError))
    ));
    assert_eq!(GetUsersView::new(vec![User::new(7)]).users()[0].id(), 7);
    assert_eq!(GetChatUsersError::BadRequest.to_string(), "Bad request.");
    assert_eq!(GetChatUsersError::NotFound.status_code(), 404);
}

#[test]
fn remove_user_flow_deletes_the_chat_once_empty() {
    let params = UsersPathParams::new(5, 51);
    assert_eq!((params.chat_id(), params.user_id()), (5, 51));
    assert!(matches!(remove_user_from_chat_start(&params, 42), RemoveUserFromChatStep::CheckAccess(_)));
    match remove_user_from_chat_after_access(&params, Ok(MEMBER)) {
        RemoveUserFromChatStep::Remove(q) => assert_eq!((q.chat_id(), q.user_id()), (5, 51)),
        other => panic!("{other:?}"),
    }
    assert!(matches!(
        remove_user_from_chat_after_access(&params, Ok(MISSING)),
        RemoveUserFromChatStep::Done(Err(RemoveUserFromChatError::NotFound))
    ));
    match trigger_remove_user_from_chat(&params, Ok(51)) {
        RemoveUserFromChatStep::DropIfEmpty(q) => assert_eq!(q.query_params(), &[QueryParam::I32(5)]),
        other => panic!("{other:?}"),
    }
    assert!(matches!(
        trigger_remove_user_from_chat(&params, Err(DbFailure::NotFound)),
        RemoveUserFromChatStep::Done(Err(RemoveUserFromChatError::BadRequest))
    ));
    assert!(matches!(remove_user_from_chat_after_drop(Ok(())), RemoveUserFromChatStep::Done(Ok(()))));
    assert!(matches!(
        remove_user_from_chat_after_drop(Err(DbFailure::Other)),
        RemoveUserFromChatStep::Done(Err(RemoveUserFromChatError::DatabaseError))
    ));
    assert_eq!(RemoveUserFromChatError::BadRequest.status_code(), 400);
}

#[test]
fn add_users_flow() {
    assert!(matches!(add_users_to_chat_start(5, 42), AddUsersToChatStep::CheckAccess(_)));
    let view = AddUsersToChat::new(vec![42, 51]);
    assert_eq!(view.users_id(), &[42, 51]);
    match add_users_to_chat_after_access(5, &view, Ok(MEMBER)) {
        AddUsersToChatStep::AddMembers(q) => assert_eq!(q.user_id(), vec![42, 51]),
        other => panic!("{other:?}"),
    }
    match add_users_to_chat_after_access(5, &AddUsersToChat::new(vec![]), Ok(MEMBER)) {
        AddUsersToChatStep::Done(Ok(r)) => assert_eq!((r.chat_id(), r.added()), (5, &[][..])),
        other => panic!("{other:?}"),
    }
    assert!(matches!(
        add_users_to_chat_after_access(5, &view, Ok(OUTSIDER)),
        AddUsersToChatStep::Done(Err(AddUsersToChatError::UnknownChat))
    ));
    match trigger_add_users_to_chat(5, &view, Ok(())) {
        AddUsersToChatStep::Done(Ok(r)) => assert_eq!((r.chat_id(), r.added()), (5, &[42, 51][..])),
        other => panic!("{other:?}"),
    }
    let fk = |m: &str| DbFailure::ForeignKeyViolation(m.to_string());
    assert!(matches!(
        trigger_add_users_to_chat(5, &view, Err(fk("insert violates conversation_members_conversation_id_fkey"))),
        AddUsersToChatStep::Done(Err(AddUsersToChatError::UnknownChat))
    ));
    assert!(matches!(
        trigger_add_users_to_chat(5, &view, Err(fk("insert violates conversation_members_user_id_fkey"))),
        AddUsersToChatStep::Done(Err(AddUsersToChatError::UnknownUser))
    ));
    assert!(matches!(
        trigger_add_users_to_chat(5, &view, Err(DbFailure::UniqueViolation("pk".to_string()))),
        AddUsersToChatStep::Done(Err(AddUsersToChatError::AlreadyMember))
    ));
    assert!(matches!(
        trigger_add_users_to_chat(5, &view, Err(DbFailure::NotFound)),
        AddUsersToChatStep::Done(Err(AddUsersToChatError::DatabaseError))
    ));
    assert_eq!(AddUsersToChatError::AlreadyMember.status_code(), 409);
    assert_eq!(
        AddUsersToChatError::AlreadyMember.to_string(),
        "A user of `users_id` is already a member of this chat."
    );
    let r = AddUsersToChatResultView::new(3, vec![1]);
    assert_eq!((r.chat_id(), r.added()), (3, &[1][..]));
}

#[test]
fn members_are_inserted_as_listed_followed_by_the_creator() {
    let listed_creator = CreateChatView::new(vec![7], "Moi".to_string());
    match create_chat_after_insert(7, &listed_creator, Ok(12)) {
        CreateChatStep::AddMembers(q, chat_id) => {
            assert_eq!(chat_id, 12);
            assert_eq!(q.user_id(), vec![7, 7]);
        },
        other => panic!("{other:?}"),
    }
    let duplicate = CreateChatView::new(vec![42, 42], "Doublon".to_string());
    match create_chat_after_insert(7, &duplicate, Ok(13)) {
        CreateChatStep::AddMembers(q, _) => assert_eq!(q.user_id(), vec![42, 42, 7]),
        other => panic!("{other:?}"),
    }
    let alone = CreateChatView::new(vec![], "Seul".to_string());
    match create_chat_after_insert(7, &alone, Ok(14)) {
        CreateChatStep::AddMembers(q, _) => assert_eq!(q.user_id(), vec![7]),
        other => panic!("{other:?}"),
    }
}

#[test]
fn listed_creator_breaks_the_member_key_and_answers_500() {
    match trigger_create_chat(12, Err(DbFailure::UniqueViolation("pk".to_string()))) {
        CreateChatStep::DropChat(q, e) => {
            assert_eq!(q.chat_id(), 12);
            assert_eq!(e, CreateChatError::DatabaseError);
            match create_chat_after_drop(e) {
                CreateChatStep::Done(Err(e)) => {
                    assert_eq!(e.status_code(), 500);
                    assert_eq!(e.to_string(), "An error occurred while accessing the database.");
                },
                other => panic!("{other:?}"),
            }
        },
        other => panic!("{other:?}"),
    }
}

#[test]
fn create_chat_flow_removes_a_chat_left_without_members() {
    let view = CreateChatView::new(vec![51, 42], "Urbanisme".to_string());
    assert_eq!((view.members(), view.name()), (&[51, 42][..], "Urbanisme"));
    match create_chat_start(&view) {
        CreateChatStep::Create(q) => assert_eq!((q.title(), q.group_id()), ("Urbanisme", None)),
        other => panic!("{other:?}"),
    }
    match create_chat_after_insert(7, &view, Ok(12)) {
        CreateChatStep::AddMembers(q, chat_id) => {
            assert_eq!(chat_id, 12);
            assert_eq!(q.chat_id(), 12);
            assert_eq!(q.user_id(), vec![51, 42, 7]);
        },
        other => panic!("{other:?}"),
    }
    assert!(matches!(
        create_chat_after_insert(7, &view, Err(DbFailure::Other)),
        CreateChatStep::Done(Err(CreateChatError::DatabaseError))
    ));
    match trigger_create_chat(12, Err(DbFailure::ForeignKeyViolation("fk".to_string()))) {
        CreateChatStep::DropChat(q, e) => {
            assert_eq!(q.chat_id(), 12);
            assert_eq!(e, CreateChatError::UnknownMember);
            assert!(matches!(create_chat_after_drop(e), CreateChatStep::Done(Err(CreateChatError::UnknownMember))));
        },
        other => panic!("{other:?}"),
    }
    assert!(matches!(
        trigger_create_chat(12, Err(DbFailure::UniqueViolation("pk".to_string()))),
        CreateChatStep::DropChat(_, CreateChatError::DatabaseError)
    ));
    match trigger_create_chat(12, Ok(())) {
        CreateChatStep::Done(Ok(r)) => assert_eq!(r.id(), 12),
        other => panic!("{other:?}"),
    }
    assert_eq!(CreateChatResultView::new(4).id(), 4);
    assert_eq!(CreateChatError::UnknownMember.to_string(), "`members` contains an unknown user.");
    assert_eq!(CreateChatError::UnknownMember.status_code(), 400);
}

#[test]
fn chat_path_params() {
    assert_eq!(ChatPathParams::new(9).chat_id(), 9);
}

#[test]
fn a_hidden_chat_answers_like_a_missing_one() {
    assert_eq!(require_chat_access(Ok(OUTSIDER)), require_chat_access(Ok(MISSING)));
    let params = MessagePathParams::new(5, 1);
    assert!(matches!(
        (delete_message_after_access(&params, Ok(OUTSIDER)), delete_message_after_access(&params, Ok(MISSING))),
        (DeleteMessageStep::Done(Err(a)), DeleteMessageStep::Done(Err(b))) if a == b
    ));
}

#[test]
fn get_errors_texts_and_statuses() {
    assert_eq!(GetChatsError::BadRequest.status_code(), 400);
    assert_eq!(GetChatsError::DatabaseError.to_string(), "An error occurred while accessing the database.");
    assert_eq!(GetChatError::UnknownChat.status_code(), 400);
    assert_eq!(GetChatError::UnknownChat.to_string(), "Unknown chat.");
}

#[test]
fn keep_alive_pings_every_interval_until_a_ping_is_lost() {
    assert_eq!(PING_INTERVAL_SECS, 15);
    assert_eq!(keep_alive_start(), KeepAliveStep::Wait(15));
    assert_eq!(keep_alive_after_wait(), KeepAliveStep::Ping);
    assert_eq!(keep_alive_after_ping(42, true), KeepAliveStep::Wait(15));
    assert_eq!(keep_alive_after_ping(42, false), KeepAliveStep::Unregister(42));
    assert_eq!(keep_alive_after_unregister(), KeepAliveStep::Stop);
    assert_eq!(ping_comment(), ": ping\n\n");
}
