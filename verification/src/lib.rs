//! Verified core of a hardware-enumeration and interrupt-dispatch kernel
//! library: PCI configuration-space access, bus scanning, MSI configuration,
//! interrupt descriptor tables, and a bounded event queue.

pub mod config;
pub mod console;
pub mod driver;
pub mod error;
pub mod events;
pub mod font;
pub mod graphics;
pub mod interrupt;
pub mod logger;
pub mod memory_map;
pub mod mouse;
pub mod msi;
pub mod pci;
pub mod xhc;
