//! Targets with no supported backend: disabling saves nothing and changes
//! nothing, and restoring does nothing.

use vstd::prelude::*;

verus! {

/// Nothing is saved.
pub type Flags = ();

/// Leaves interrupts as they are and saves nothing.
pub fn read_disable() -> (r: Flags)
    ensures
        r == (),
{
}

/// Leaves interrupts as they are.
pub fn restore(flags: Flags) {
}

} // verus!
