//! MailCrater: a local SMTP catcher that stores every message it receives and
//! serves them over a small HTTP API.
//!
//! The verified library holds the decisions and data handling of the server:
//! the server settings, the per-session message buffer and its size limit,
//! the conversion of a parsed mail into a stored message, the rows written to
//! and read from the message store, the answers of the HTTP API, and the text
//! and event handling of the web client.

pub mod config;
pub mod mail;
pub mod message;
pub mod handler;
pub mod connection;
pub mod json;
pub mod ids;
pub mod storage;
pub mod api;
pub mod text;
pub mod ui;
