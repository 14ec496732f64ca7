//! An FTP server core: command lexicon, path resolution confined to a root,
//! the per-connection session state machine, and the listing formatter.
//! Sockets, files and the clock are driven by the caller, which hands the
//! library plain values and performs the actions it returns.

pub mod commands;
pub mod config;
pub mod listing;
pub mod path;
pub mod protocol;
pub mod server;
pub mod session;
pub mod text;
