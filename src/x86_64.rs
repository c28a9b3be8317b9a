//! x86-64: the saved state is the interrupt-enable flag of RFLAGS.
//!
//! Disabling reads RFLAGS (`pushfq; pop`) and then clears the flag with `cli`.
//! Restoring runs `sti` only where the flag was set before.

use vstd::prelude::*;

verus! {

/// The interrupt-enable flag, bit 9 of RFLAGS.
pub const INTERRUPT_FLAG: u64 = 0x200;

/// Whether interrupts were enabled before they were disabled.
pub type Flags = bool;

/// Interrupts are enabled in this RFLAGS image.
pub open spec fn interrupts_enabled(rflags: u64) -> bool {
    rflags & INTERRUPT_FLAG != 0
}

/// RFLAGS once `cli` has run.
pub open spec fn disabled(rflags: u64) -> u64 {
    rflags & !INTERRUPT_FLAG
}

/// RFLAGS once the saved state has been restored.
pub open spec fn restored(enable: Flags, rflags: u64) -> u64 {
    if enable {
        rflags | INTERRUPT_FLAG
    } else {
        rflags
    }
}

/// Reads the state to save from RFLAGS as it was before `cli`, and gives
/// RFLAGS as it is after.
pub fn read_disable(rflags: u64) -> (r: (Flags, u64))
    ensures
        r.0 == interrupts_enabled(rflags),
        r.1 == disabled(rflags),
        !interrupts_enabled(r.1),
{
    let enable = (rflags & INTERRUPT_FLAG) == INTERRUPT_FLAG;
    let after = rflags & !INTERRUPT_FLAG;
    assert(enable == (rflags & 0x200u64 != 0) && after & 0x200u64 == 0) by (bit_vector)
        requires
            enable == ((rflags & 0x200u64) == 0x200u64),
            after == rflags & !0x200u64,
    ;
    (enable, after)
}

/// RFLAGS after restoring `enable`: `sti` runs only where interrupts were enabled.
pub fn restore(enable: Flags, rflags: u64) -> (r: u64)
    ensures
        r == restored(enable, rflags),
        interrupts_enabled(r) == (enable || interrupts_enabled(rflags)),
{
    let r = if enable {
        rflags | INTERRUPT_FLAG
    } else {
        rflags
    };
    assert((rflags | 0x200u64) & 0x200u64 != 0) by (bit_vector);
    r
}

/// Restoring right after disabling gives back the register as it was.
pub proof fn lemma_round_trip(rflags: u64)
    ensures
        restored(interrupts_enabled(rflags), disabled(rflags)) == rflags,
{
    assert(if rflags & 0x200u64 != 0 {
        (rflags & !0x200u64) | 0x200u64 == rflags
    } else {
        rflags & !0x200u64 == rflags
    }) by (bit_vector);
}

/// A second disable while the first holds saves "disabled"; restoring it keeps
/// interrupts disabled, and only restoring the first brings back the original.
pub proof fn lemma_nesting(rflags: u64)
    ensures
        !interrupts_enabled(disabled(rflags)),
        disabled(disabled(rflags)) == disabled(rflags),
        restored(interrupts_enabled(disabled(rflags)), disabled(disabled(rflags)))
            == disabled(rflags),
        !interrupts_enabled(
            restored(interrupts_enabled(disabled(rflags)), disabled(disabled(rflags))),
        ),
        restored(
            interrupts_enabled(rflags),
            restored(interrupts_enabled(disabled(rflags)), disabled(disabled(rflags))),
        ) == rflags,
{
    assert((rflags & !0x200u64) & 0x200u64 == 0) by (bit_vector);
    assert((rflags & !0x200u64) & !0x200u64 == rflags & !0x200u64) by (bit_vector);
    lemma_round_trip(rflags);
}

/// Restoring changes no bit of RFLAGS but the interrupt-enable flag, whatever
/// the other bits became since disabling, and sets that flag only where it was
/// saved as set.
pub proof fn lemma_restore_bit_exact(enable: Flags, rflags: u64)
    ensures
        restored(enable, rflags) & !INTERRUPT_FLAG == rflags & !INTERRUPT_FLAG,
        interrupts_enabled(restored(enable, rflags)) == (enable || interrupts_enabled(rflags)),
        !enable ==> restored(enable, rflags) == rflags,
{
    assert((rflags | 0x200u64) & !0x200u64 == rflags & !0x200u64) by (bit_vector);
    assert((rflags | 0x200u64) & 0x200u64 != 0) by (bit_vector);
}

} // verus!
