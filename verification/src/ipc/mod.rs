pub mod handler;
pub mod messages;
pub mod types;
