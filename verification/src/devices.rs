//! Brief views of devices.

pub mod pci;
