//! The PCI configuration-space enumerator.

pub mod comms;
pub mod database;
pub mod detect;
pub mod model;
