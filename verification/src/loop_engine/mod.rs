pub mod events;
pub mod scheduler;
pub mod model;
pub mod player;
pub mod laws;
