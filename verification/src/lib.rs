pub mod args;
pub mod codec;
pub mod email;
pub mod pass;
pub mod table;
pub mod timestamp;
pub mod user;
