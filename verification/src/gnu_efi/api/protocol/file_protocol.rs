//! What the loader hands to the firmware's file protocol.

use vstd::prelude::*;
use vstd::string::StringSliceAdditionalSpecFns;

verus! {

/// The units of 16 bits that a file name is given to the firmware in.
pub const WIDE_NAME_UNITS: usize = 30;

/// The mode in which the loader opens a file: for reading.
pub const OPEN_MODE_READ: u64 = 0x01;

/// The bytes of `name`, each widened to 16 bits, with zeros after them
/// up to `units` units.
pub open spec fn widened(name: Seq<u8>, units: nat) -> Seq<u16> {
    Seq::new(
        units,
        |i: int|
            if i < name.len() {
                name[i] as u16
            } else {
                0u16
            },
    )
}

/// The file name as the firmware takes it: each byte widened to a unit
/// of 16 bits, in a buffer of 30 units that is zero behind the name.
pub fn wide_file_name(file_name: &str) -> (result: [u16; 30])
    requires
        file_name.spec_bytes().len() <= WIDE_NAME_UNITS,
    ensures
        result@ == widened(file_name.spec_bytes(), WIDE_NAME_UNITS as nat),
{
    let bytes = file_name.as_bytes();
    let mut wide_file_name: [u16; 30] = [0; 30];
    let mut index: usize = 0;
    while index < bytes.len()
        invariant
            index <= bytes.len() <= WIDE_NAME_UNITS,
            bytes@ == file_name.spec_bytes(),
            forall|i: int| 0 <= i < index ==> wide_file_name@[i] == bytes@[i] as u16,
            forall|i: int| index <= i < WIDE_NAME_UNITS ==> wide_file_name@[i] == 0,
        decreases bytes.len() - index,
    {
        wide_file_name[index] = bytes[index] as u16;
        index += 1;
    }
    assert(wide_file_name@ =~= widened(bytes@, WIDE_NAME_UNITS as nat));
    wide_file_name
}

} // verus!
