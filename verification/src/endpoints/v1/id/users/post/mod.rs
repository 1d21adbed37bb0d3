pub mod endpoint;
pub mod view;
