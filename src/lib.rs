//! A live markdown preview pipeline: a watched file is re-rendered on every
//! relevant change and each result is handed on, in order, to a viewer.
//!
//! The crate holds the decisions of the pipeline as verified code: how text
//! becomes markup, when a failed read is retried, which filesystem events
//! count as a change, and how one watch session moves from state to state.
//! Waiting, reading files and talking to the network are left to the caller.

pub mod config;
pub mod events;
pub mod reader;
pub mod render;
pub mod session;

pub use config::{Cli, WatchBackend, HEARTBEAT_INTERVAL_MS, POLL_INTERVAL_MS};
pub use events::{EventClass, RawChangeEvent};
pub use reader::{ReadStep, ResilientReader, MAX_READ_ATTEMPTS, READ_BACKOFF_MS};
pub use render::{RenderResult, ReadError, render, render_read};
pub use session::{
    Phase, SessionAction, SessionInput, WatchSession, WatchTarget, DELIVERY_CAPACITY,
};
