//! Memory-to-memory DMA.
//!
//! [`channel`] models one hardware DMA channel as plain register state,
//! [`buffer`] defines the buffer capabilities a transfer needs, and
//! [`memcpy`] is the transfer controller built on both.

pub mod buffer;
pub mod channel;
pub mod memcpy;

pub use buffer::{Destination, Element, Linear, Source};
pub use channel::{Channel, ErrorStatus, TransferError, TransferRegion};
pub use memcpy::Memcpy;
