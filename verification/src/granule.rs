//! The unit of physical memory whose ownership moves between the host and
//! the realms.

use vstd::prelude::*;

verus! {

/// The size of a granule in bytes.
pub const GRANULE_SIZE: usize = 4096;

} // verus!
