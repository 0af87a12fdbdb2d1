//! The player's state and the status line made of it.

pub mod data;
pub mod output;
