//! The logic of the RebornMP multiplayer mod: the in-game chat and console,
//! the memory signature scanner, function hooks, the client/server
//! protocol, and the launcher's decisions. What touches the operating
//! system lives outside this crate and hands plain values in.

pub mod chat;
pub mod console;
pub mod dll;
pub mod hooks;
pub mod launch;
pub mod link;
pub mod logfmt;
pub mod memscan;
pub mod offsets;
pub mod packets;
pub mod signatures;
pub mod text;
pub mod webscript;
pub mod winstr;
