pub mod application;
pub mod configuration;
pub mod io;
pub mod laws;
pub mod model;
pub mod prompt;
pub mod protocol;
pub mod text;
pub mod tree;
