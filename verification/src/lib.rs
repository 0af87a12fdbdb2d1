//! A one-line status display for the cmus music player.
//!
//! The heart of the crate is a small template language: a template is parsed
//! once into a [`cmus_status::output::Format`] and then rendered against a
//! snapshot of the player's state, a [`cmus_status::data::CmusData`].
//!
//! Every function carries a contract that says what it returns, and Verus
//! proves each of them. Five contracts are taken on trust, those of code that
//! is not the crate's own: `String::push`, `char::is_whitespace`,
//! `str::to_lowercase`, `Path::file_stem` and `htmlescape::encode_minimal`.

pub mod action;
pub mod args;
pub mod cmus_status;
pub mod config;
pub mod error;
pub mod meta;
pub mod text;
