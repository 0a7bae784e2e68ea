//! Session coordination for a networked trick-taking card game.
//!
//! One session holds up to seven players. It starts in the lobby, where
//! players join, leave and change their names, and moves to the game when
//! the host asks for it. All changes to the session go through `Server`, one
//! request at a time; clients learn of them by messages.
//!
//! - `cards`, `player`, `message`: the values that travel.
//! - `framing`: where one message ends on the byte stream and the next
//!   begins.
//! - `session`: what a session is and how each request changes it, as
//!   mathematics; `server` is the session that runs, `requests` what reaches
//!   it and what comes back, `laws` what holds of every session.
//! - `connection`: what one connection does with reads, frames and outgoing
//!   messages.
//! - `client`, `handler`, `mirror`, `selection`: the client's picture of the
//!   session, what a key does to it and what a message from the session
//!   does to it.
//! - `layout`: where a card goes on the screen.
//!
//! Every function carries a contract and is verified against it. Taken on
//! trust are two calls into ratatui in `layout` and what `text` says of two
//! operations on `String`.

pub mod cards;
pub mod client;
pub mod connection;
pub mod framing;
pub mod handler;
pub mod laws;
pub mod layout;
pub mod message;
pub mod mirror;
pub mod player;
pub mod requests;
pub mod selection;
pub mod server;
pub mod session;
pub mod text;
