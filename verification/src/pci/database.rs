//! The identifier catalogue: immutable tables from codes to names.

pub mod class_ids;
pub mod device_ids;
pub mod prog_if_ids;
pub mod subclass_ids;
pub mod vendor_ids;
