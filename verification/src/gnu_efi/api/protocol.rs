//! The protocols of the firmware that the loader uses.

use vstd::prelude::*;
use crate::gnu_efi::api::types::Guid;

pub mod device_path_protocol;
pub mod file_protocol;

verus! {

/// A protocol of the firmware, which is known by its name.
pub trait Protocol {
    fn get_guid() -> Guid;
}

} // verus!
