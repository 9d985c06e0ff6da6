//! Synchronization core of a slide presentation server.
//!
//! The server shows a sequence of slides to any number of viewers and keeps
//! them on the same slide. `registry` holds the open viewer connections and
//! broadcasts a slide change to them, `control` lets a change through for
//! whoever presents the shared secret, and `lifecycle` decides what one
//! connection does from handshake to close. `channel` is the boundary to the
//! `tokio` channels that carry the notifications. Around these, `args` and
//! `config` settle what is served, `slides` and `decimal` say what a slide
//! index means and how it is written, and `pages` builds the documents the
//! server answers with.

pub mod args;
pub mod channel;
pub mod config;
pub mod control;
pub mod decimal;
pub mod lifecycle;
pub mod pages;
pub mod registry;
pub mod slides;
