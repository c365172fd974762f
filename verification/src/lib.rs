pub mod app;
pub mod input;
pub mod laws;
pub mod todo;
