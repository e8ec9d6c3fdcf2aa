//! A safe driver layer for an Ethernet MAC/DMA peripheral, its PHY and its
//! pin configuration, written as verified state machines.
//!
//! The vendor firmware performs the register work; every operation of this
//! library decides what may be handed to it and interprets the result code
//! it returns.

pub mod fsp;
pub mod ether;
pub mod ether_phy;
pub mod ioport;
pub mod r_ether;
