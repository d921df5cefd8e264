//! PCI configuration-space enumeration and an AMD PCnet-II (Am79C970) driver core.
//!
//! The library holds the rules of both subsystems as verified code over plain
//! values: address formation, record decoding, the identifier catalogue, the
//! textual renderings, address translation, the card-visible data layouts and
//! the driver's bring-up and ring-servicing state machine. Port input/output
//! and the card-visible memory itself belong to the program that uses the
//! library: the library says which accesses to make and what follows from
//! their results.

pub mod devices;
pub mod pci;
pub mod pcnet;
pub mod shortcuts;
pub mod startup;
