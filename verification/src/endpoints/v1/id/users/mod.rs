pub mod get;
pub mod id;
pub mod post;
