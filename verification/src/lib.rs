//! Decision logic of a small inference gateway: worker supervision, the
//! nonce-indexed job inbox/outbox, per-client sessions and the idle controller.
//!
//! Every function here works on plain values. Whoever drives the library
//! performs the file, process and network operations it asks for and hands
//! the outcomes back.

pub mod client;
pub mod config;
pub mod err;
pub mod files;
pub mod idle;
pub mod image;
pub mod json;
pub mod launchers;
pub mod misc;
pub mod pci;
pub mod session;
pub mod stream;
pub mod supervisor;
pub mod tail;
pub mod text;
pub mod worker;
