pub mod access;
pub mod add_message_to_chat;
pub mod delete_chat;
pub mod delete_empty_chat;
pub mod delete_message_from_chat;
pub mod get_chat;
pub mod get_chat_users;
pub mod get_chats;
pub mod message_owner;
pub mod patch_message_in_chat;
pub mod remove_user_from_chat;
pub mod reset_unread_count;
pub mod create_chat;
pub mod add_users_to_chat;
