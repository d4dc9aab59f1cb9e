//! A logging bridge for hosts that expose a browser-style console.
//!
//! A leveled record is routed to one of five native console primitives,
//! chosen by its severity, after it has passed the process-wide threshold.
//! This crate holds the decisions of that bridge as plain functions on plain
//! values: which records pass, which primitive a record reaches, what bytes
//! the primitive is handed, and how the one-time registration behaves. The
//! caller owns the process-wide state and performs the host calls that the
//! functions here describe.

pub mod console;
pub mod level;
pub mod logger;
pub mod registration;

pub use console::{Host, HostCall, Primitive, UnsupportedPlatform};
pub use level::{Level, LevelFilter};
pub use logger::{log_record, Metadata, Record, WasmLogger};
pub use registration::{init, init_with_level, AlreadyRegistered, Registration};
