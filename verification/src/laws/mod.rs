//! What the functions of the crate promise their callers, stated of the results of their calls.
pub mod hints;
pub mod index;
pub mod limits;
pub mod rotation;
pub mod runs;
pub mod saving;
pub mod settings;
pub mod text;
