//! The rules of a desktop companion for an issue tracker.
//!
//! The library decides which request every operation of the tracker client
//! sends, how requests are paced, how pages are walked and what a response
//! means; it keeps the timer that tracks time against an issue; and it turns
//! what arrives on the wire into what the application shows. It performs no
//! input or output itself: callers send the requests, read the clock where a
//! function takes the time as an argument, and hold shared state behind
//! their own locks.
//!
//! Every function states what it returns over mathematical models, chiefly
//! `Seq<char>` for text, and is verified against that statement. The few
//! calls into other crates and into the clock stand in small functions whose
//! contracts are taken on trust; each says in its comment which call it makes
//! and what it claims of it.

pub mod attachments;
pub mod auth;
pub mod bridge;
pub mod client;
pub mod commands;
pub mod config;
pub mod display;
pub mod duration;
pub mod error;
pub mod filters;
pub mod json;
pub mod models;
pub mod notices;
pub mod pagination;
pub mod rate_limiter;
pub mod request;
pub mod session;
pub mod settings;
pub mod store;
pub mod text;
pub mod timer;
pub mod tray;
pub mod worklog;
