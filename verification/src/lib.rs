//! Backend command handlers for a desktop audio-clip application shell.
//!
//! The library exposes the handlers behind the shell's request/response
//! boundary: file-metadata lookup, a placeholder clip export, URL opening,
//! and a placeholder file-picker. Each handler is a pure computation over
//! plain values; the host-facing glue (serialization, the host runtime,
//! platform calls other than the URL opener) lives outside the library.

pub mod commands;
pub mod path_name;
pub mod types;
