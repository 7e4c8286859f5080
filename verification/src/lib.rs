//! DashTUI core: the verified logic behind the developer dashboard.
pub mod cli;
pub mod commands;
pub mod db;
pub mod error;
pub mod text;
pub mod tui;
