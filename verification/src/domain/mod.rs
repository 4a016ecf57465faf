pub mod project;
pub mod store;
pub mod validation;

pub use project::{Header, Note, PitchBend, Project, Track, PPQN};
pub use store::ProjectStore;
pub use validation::{validate, ValidationError};
