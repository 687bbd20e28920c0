pub mod backend;
pub mod chat;
pub mod error;
pub mod json;
pub mod laws;
pub mod params;
pub mod text;
