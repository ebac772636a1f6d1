//! What the kernel and its loader read of the firmware's tables.

use vstd::prelude::*;

pub mod acpi;
pub mod api;
pub mod def;

verus! {

/// The length of the text at the start of `bytes`: the number of bytes
/// before the first zero byte, or all of them if none is zero.
pub fn strlen(bytes: &[u8]) -> (result: usize)
    ensures
        result <= bytes@.len(),
        forall|i: int| 0 <= i < result ==> bytes@[i] != 0,
        result < bytes@.len() ==> bytes@[result as int] == 0,
{
    let mut index: usize = 0;
    while index < bytes.len() && bytes[index] != 0
        invariant
            index <= bytes@.len(),
            forall|i: int| 0 <= i < index ==> bytes@[i] != 0,
        decreases bytes@.len() - index,
    {
        index += 1;
    }
    index
}

} // verus!
