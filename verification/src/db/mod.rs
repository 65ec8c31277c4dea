//! Records as the stores hold them, and the operations on the token store.

pub mod notifies;
pub mod token_ops;
pub mod tokens;
pub mod users;
