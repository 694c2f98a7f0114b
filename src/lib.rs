//! A tiny page server: the decisions of its connection handler and its
//! listener loop, written as verified state machines over plain values.
//! Sockets, files, timers and the page store are driven by the caller.

pub mod route;
pub mod handler;
pub mod listener;
pub mod store;
