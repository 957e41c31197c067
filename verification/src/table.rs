//! Standard UEFI tables.

use vstd::prelude::*;

verus! {

/// Common trait implemented by all standard UEFI tables.
pub trait Table {
    /// A unique number assigned by the UEFI specification to the standard
    /// tables.
    const SIGNATURE: u64;
}

} // verus!
