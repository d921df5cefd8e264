//! Programming interfaces, keyed by class, subclass and interface together.

use vstd::prelude::*;

verus! {

/// The name of a programming interface, where the catalogue has one.
pub open spec fn spec_prog_if_name(class_id: u8, subclass_id: u8, prog_if_id: u8) -> Option<Seq<char>> {
    if class_id == 0x01 && subclass_id == 0x01 && prog_if_id == 0x80 {
        Some("ISA Compatibility mode-only controller, supports bus mastering"@)
    } else if class_id == 0x03 && subclass_id == 0x00 && prog_if_id == 0x00 {
        Some("VGA Controller"@)
    } else {
        None
    }
}

/// The name of a programming interface, or nothing where the catalogue has
/// no entry for the triple.
pub fn get_prog_if_name(class_id: u8, subclass_id: u8, prog_if_id: u8) -> (name: Option<&'static str>)
    ensures
        name is Some <==> spec_prog_if_name(class_id, subclass_id, prog_if_id) is Some,
        name is Some ==> name->0@ == spec_prog_if_name(class_id, subclass_id, prog_if_id)->0,
{
    if class_id == 0x01 && subclass_id == 0x01 && prog_if_id == 0x80 {
        Some("ISA Compatibility mode-only controller, supports bus mastering")
    } else if class_id == 0x03 && subclass_id == 0x00 && prog_if_id == 0x00 {
        Some("VGA Controller")
    } else {
        None
    }
}

} // verus!
