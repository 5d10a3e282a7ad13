//! The core of a bridge between a desktop shell and a worker process that
//! speaks newline-delimited JSON.
//!
//! The bridge correlates requests with replies, bounds every wait, notices
//! when the worker is gone, and fans the worker's events out to
//! subscribers. This crate holds its decisions and none of its I/O: a
//! caller reads and writes the streams, runs the timers and kills the
//! process, and asks the bridge at every step what to do.
//!
//! - [`codec`]: the wire format, line by line.
//! - [`bridge`]: the table of requests in flight, the id counter, the fuse.
//! - [`model`]: the bridge as a state machine, and [`laws`]: what holds of
//!   it over every course of events.
//! - [`reply`]: reply slots and what a waiting caller is told.
//! - [`events`]: events and their fan-out.
//! - [`lifecycle`]: the states of the bridge and the order of a shutdown.
//! - [`commands`] and [`dto`]: the requests of the shell and the values of
//!   their replies.
//! - [`supervisor`]: where the worker is found.
//! - [`tray`]: the texts and choices of the tray menu.
//! - [`json`]: JSON documents, and [`error`]: the failures.

pub mod bridge;
pub mod codec;
pub mod commands;
pub mod dto;
pub mod error;
pub mod events;
pub mod json;
pub mod laws;
pub mod lifecycle;
pub mod model;
pub mod reply;
pub mod supervisor;
pub mod tray;
