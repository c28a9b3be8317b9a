//! AArch64: the saved state is the whole DAIF register.
//!
//! Disabling reads DAIF (`mrs`) and then sets every exception-mask bit:
//! debug, asynchronous aborts, IRQs and FIQs (`msr DAIFSet, 0b1111`).
//! Restoring writes the saved image back (`msr`).

use vstd::prelude::*;

verus! {

/// The IRQ mask bit of DAIF, bit 7.
pub const IRQ_MASK: u64 = 0x80;

/// The exception-mask bits that `msr DAIFSet, 0b1111` sets: D (bit 9),
/// A (bit 8), I (bit 7) and F (bit 6).
pub const DAIF_SET_MASK: u64 = 0x3C0;

/// The DAIF image read before disabling.
pub type Flags = u64;

/// Interrupts are enabled in this DAIF image.
pub open spec fn interrupts_enabled(daif: u64) -> bool {
    daif & IRQ_MASK == 0
}

/// DAIF once `msr DAIFSet, 0b1111` has run.
pub open spec fn disabled(daif: u64) -> u64 {
    daif | DAIF_SET_MASK
}

/// DAIF once the saved image has been written back: whatever it held, it now
/// holds the saved image.
pub open spec fn restored(saved: Flags, daif: u64) -> u64 {
    saved
}

/// Saves the DAIF image as it was before masking, and gives DAIF as it is after.
pub fn read_disable(daif: u64) -> (r: (Flags, u64))
    ensures
        r.0 == daif,
        r.1 == disabled(daif),
        !interrupts_enabled(r.1),
{
    let after = daif | DAIF_SET_MASK;
    assert((daif | 0x3C0u64) & 0x80u64 != 0) by (bit_vector);
    (daif, after)
}

/// DAIF after restoring `saved`: the saved image, written back unconditionally.
pub fn restore(saved: Flags, daif: u64) -> (r: u64)
    ensures
        r == restored(saved, daif),
{
    saved
}

/// Restoring right after disabling gives back the register as it was.
pub proof fn lemma_round_trip(daif: u64)
    ensures
        restored(daif, disabled(daif)) == daif,
{
}

/// A second disable while the first holds saves a masked image; restoring it
/// keeps interrupts disabled, and only restoring the first brings back the
/// original.
pub proof fn lemma_nesting(daif: u64)
    ensures
        !interrupts_enabled(disabled(daif)),
        disabled(disabled(daif)) == disabled(daif),
        restored(disabled(daif), disabled(disabled(daif))) == disabled(daif),
        !interrupts_enabled(restored(disabled(daif), disabled(disabled(daif)))),
        restored(daif, restored(disabled(daif), disabled(disabled(daif)))) == daif,
{
    assert((daif | 0x3C0u64) & 0x80u64 != 0) by (bit_vector);
    assert((daif | 0x3C0u64) | 0x3C0u64 == daif | 0x3C0u64) by (bit_vector);
}

} // verus!
