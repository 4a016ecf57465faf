pub mod receiver;
pub mod tracker;
