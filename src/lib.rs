pub mod app;
pub mod collection;
mod text;
pub mod todo;
pub mod update;
pub mod laws;
