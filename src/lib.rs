pub mod host;
pub mod probe;
pub mod text;
