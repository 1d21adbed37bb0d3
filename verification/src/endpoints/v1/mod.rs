pub mod get;
pub mod id;
pub mod post;
pub mod stream;
