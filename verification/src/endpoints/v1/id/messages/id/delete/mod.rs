pub mod endpoint;
