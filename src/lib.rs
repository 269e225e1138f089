//! Discovery of attached PCI devices through the kernel's sysfs and procfs views, and decoding
//! of their identification fields, with a fixed-capacity buffer and hex field parsers beneath.

pub mod arrayvec;
pub mod components;
pub mod display;
pub mod parse;
pub mod pci;
