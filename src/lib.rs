pub mod api;
pub mod commands;
pub mod presence;
