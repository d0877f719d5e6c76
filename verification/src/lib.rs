//! A Telegram bot that runs shell commands for the users on its list.
//!
//! The library holds every decision the bot takes: which users may use the
//! terminal, what a chat message asks for, how settings are checked, stored
//! and changed, how command output is cut down, and what is answered. The
//! program around it reads the environment, talks to Telegram, probes the
//! file system and runs the commands, handing the library what came back.
//!
//! - `text`: whitespace, trimming, prefixes, truncation and decimal numbers.
//! - `config`: the start-up configuration and its checks.
//! - `envfile`: how a setting is written into the `.env` file.
//! - `terminal`: the terminal service and its requests.
//! - `platform::telegram`: requests, answers and the handling of a message.
//! - `laws`: properties that hold across these functions.
pub mod config;
pub mod envfile;
pub mod laws;
pub mod platform;
pub mod terminal;
pub mod text;
