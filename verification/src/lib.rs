//! A session manager for serial (COM) ports, written without I/O of its own.
//!
//! The manager records which named ports are open, owns their handles, and
//! decides what every operation answers. The serial driver stays outside:
//! an operation that needs it returns a request to the caller, and a second
//! call takes the driver's outcome and settles the result.

pub mod error;
pub mod laws;
pub mod manager;
pub mod ports;
pub mod registry;
pub mod settings;
pub mod text;
pub mod transfer;
