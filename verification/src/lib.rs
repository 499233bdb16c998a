//! Queue-ticket printing for thermal receipt printers.
//!
//! The library classifies installed printers as thermal-capable, maps
//! OS status codes to a status enum, encodes a ticket into an
//! ESC/POS-like control-byte stream, and decides the outcome of a
//! dispatch to the OS spooler. All I/O (process invocation, temp
//! files) lives outside the library.

pub mod detection;
pub mod json_listing;
pub mod printing;
pub mod qr;
pub mod status;
pub mod text;

pub use status::PrinterStatus;
