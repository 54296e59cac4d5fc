//! The decision core of a desktop companion for Final Fantasy VII.
//!
//! The companion attaches to a running game process, serves a small set of
//! commands to its user interface, and keeps itself current through a remote
//! update channel. Talking to the game process, to the network and to the
//! application shell is the host's business. This crate holds what the host
//! must decide, and proves it:
//!
//! * [`commands`]: the command bridge. It decides for each command, from the
//!   live attachment state, what the host has to do and what the caller is told.
//! * [`updater`]: the session of one update cycle and its transition function.
//! * [`cycle`]: whole update cycles, replayed from recorded events, and the
//!   laws that hold of them.
//!
//! The host performs the outside work and hands every outcome back as a plain
//! value. No function here blocks, performs I/O or panics.

pub mod commands;
pub mod cycle;
pub mod updater;
