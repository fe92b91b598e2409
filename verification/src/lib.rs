//! Verified core of a desktop front end for the aria2c download manager.

pub mod text;
pub mod tray;
pub mod menu;
pub mod aria2c;
pub mod api;
pub mod archive;
