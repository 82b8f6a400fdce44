//! Errors of realm and virtual-CPU operations, as they are reported to the
//! host.

use vstd::prelude::*;

verus! {

/// Why an operation on a realm or one of its virtual CPUs was refused.
#[derive(Debug, Copy, Clone, PartialEq, Eq, Structural)]
pub enum Error {
    /// An argument does not name what the operation needs.
    RmiErrorInput,
}

} // verus!
