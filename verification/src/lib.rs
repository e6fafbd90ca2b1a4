//! Hardware-control library for an i.MX RT style microcontroller, written
//! against a plain-value model of the device registers so that every driver
//! decision is stated in a contract and proved.
//!
//! Two drivers live here:
//!
//! - [`dma`]: a memory-to-memory DMA copy controller. It owns one hardware
//!   channel, tracks the lifecycle of a one-shot transfer, and holds exclusive
//!   ownership of the source and destination buffers while a transfer is
//!   outstanding, so that the CPU can never touch memory the engine is using.
//! - [`tempmon`]: the on-chip temperature monitor, a linear-conversion
//!   register wrapper around a factory calibration word.

pub mod dma;
pub mod tempmon;
