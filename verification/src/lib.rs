//! Host-plugin ABI adapter for a loadable chat-client extension module.
//!
//! The host application maps the module into its process, hands it a
//! configuration record once at load time, then repeatedly asks it to
//! evaluate a command by writing a result into a caller-owned, null
//! terminated wide-character buffer, and finally negotiates unloading.
//! This crate holds the verified core of that adapter: the write-once
//! configuration cell, the bounded buffer-fill protocol, and the three
//! handlers the host drives.

pub mod buffer;
pub mod config;
pub mod entry;

pub use buffer::RESULT_LEN;
pub use config::{CaptureError, ConfigCell, LOADINFO};
pub use entry::{hello, LoadDll, UnloadDll, ALLOW_UNLOAD, FILLED_RESULT, HALT_PROCESSING};
