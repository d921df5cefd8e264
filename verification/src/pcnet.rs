//! The AMD PCnet-II (Am79C970) Ethernet driver.

pub mod buffers;
pub mod device;
pub mod layout;
pub mod ports;
pub mod support;
