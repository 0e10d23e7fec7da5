pub mod handler;
pub mod json;
pub mod laws;
pub mod store;
