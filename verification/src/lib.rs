//! Karta: the decision logic of a voice assistant that places phone calls
//! on behalf of its principal, with its behaviour stated and proved.

pub mod text;
pub mod clock;
pub mod conversation;
pub mod amount;
pub mod cli;
pub mod commands;
pub mod text_map;
pub mod task;
pub mod config;
pub mod error;
pub mod telephony;
pub mod json;
pub mod voice;
pub mod ui;
