pub mod id;
pub mod post;
