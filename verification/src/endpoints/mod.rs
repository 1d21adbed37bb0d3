pub mod v1;
pub mod validation;
