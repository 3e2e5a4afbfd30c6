pub mod communication;
pub mod db;
pub mod session;
pub mod tui;
