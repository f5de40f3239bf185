//! Bring-up and control-loop core of a battery-class LoRaWAN node.
//!
//! The crate models the ordered acquisition of exclusive hardware
//! resources, the construction of a DMA-backed serial bus and a layered
//! radio transport on top of it, the over-the-air join handshake, and the
//! cooperative schedule of the two tasks (periodic uplink placeholder and
//! heartbeat) that run after the join resolves.  Hardware and radio I/O
//! happen outside the crate; every decision the node makes is verified
//! here, over the outcome values that the outside work hands back.

pub mod identity;
pub mod peripherals;
pub mod dma;
pub mod bus;
pub mod radio;
pub mod session;
pub mod node;
pub mod boot;
