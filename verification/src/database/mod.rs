pub mod chats;
pub mod failure;
pub mod query;
