pub mod api;
pub mod bible;
pub mod cli;
pub mod config;
pub mod reader;
pub mod text;
pub mod ui;
