//! Sending side of a small binary-transfer protocol.
//!
//! A transfer is one fixed 16-byte header, one payload section (raw or
//! deflated) and one section of argument text, laid out back to back on a
//! reliable byte stream. This crate builds those sections and decides the
//! order in which they are written; it performs no I/O of its own.

pub mod error;
pub mod header;
pub mod transfer;

pub use error::WiiLoadFail;
pub use header::NetworkPacketHeader;
pub use transfer::net_send;
pub use transfer::Stage;
pub use transfer::Transfer;
