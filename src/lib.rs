pub mod settings;
pub mod catalog;
pub mod error;
pub mod guard;
pub mod render;
pub mod paths;
pub mod clock;
pub mod laws;
