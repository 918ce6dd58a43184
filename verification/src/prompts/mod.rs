//! The prompts.
pub mod confirm;
pub mod message;
pub mod multi_select;
pub mod number;
pub mod password;
pub mod select;
pub mod text;
pub mod toggle;
pub mod validator;
