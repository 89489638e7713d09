pub mod common;
pub mod laws;
pub mod secret;
pub mod text;
pub mod ui;
