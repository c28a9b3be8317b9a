//! 64-bit RISC-V: the saved state is the low byte of `mstatus`.
//!
//! Disabling clears SIE and MIE and reads their prior value in one atomic
//! instruction (`csrrci rd, mstatus, 0b1010`). Restoring sets SIE and MIE
//! again, as far as they were set in the saved byte, with an atomic OR
//! (`csrs mstatus, rs1`): it clears nothing and touches no other bit.

use vstd::prelude::*;

verus! {

/// The supervisor and machine interrupt-enable bits of `mstatus`: SIE (bit 1)
/// and MIE (bit 3).
pub const ENABLE_BITS: u64 = 0b1010;

/// The part of `mstatus` that the saved state holds: its low byte.
pub const LOW_BYTE: u64 = 0xFF;

/// The low byte of `mstatus` as it was before disabling.
pub type Flags = u8;

/// Interrupts are enabled in this `mstatus` image: SIE or MIE is set.
pub open spec fn interrupts_enabled(mstatus: u64) -> bool {
    mstatus & ENABLE_BITS != 0
}

/// The state saved from `mstatus`: its low byte.
pub open spec fn saved(mstatus: u64) -> Flags {
    (mstatus & LOW_BYTE) as u8
}

/// `mstatus` once `csrrci` has cleared SIE and MIE.
pub open spec fn disabled(mstatus: u64) -> u64 {
    mstatus & !ENABLE_BITS
}

/// `mstatus` once `csrs` has set the saved enable bits again.
pub open spec fn restored(flags: Flags, mstatus: u64) -> u64 {
    mstatus | ((flags as u64) & ENABLE_BITS)
}

/// Saves the low byte of `mstatus` as it was before clearing SIE and MIE, and
/// gives `mstatus` as it is after.
pub fn read_disable(mstatus: u64) -> (r: (Flags, u64))
    ensures
        r.0 == saved(mstatus),
        r.1 == disabled(mstatus),
        !interrupts_enabled(r.1),
{
    let flags = (mstatus & LOW_BYTE) as u8;
    let after = mstatus & !ENABLE_BITS;
    assert((mstatus & !0b1010u64) & 0b1010u64 == 0) by (bit_vector);
    (flags, after)
}

/// `mstatus` after restoring `flags`: the saved enable bits are ORed in.
pub fn restore(flags: Flags, mstatus: u64) -> (r: u64)
    ensures
        r == restored(flags, mstatus),
{
    mstatus | ((flags as u64) & ENABLE_BITS)
}

/// Restoring right after disabling gives back the register as it was.
pub proof fn lemma_round_trip(mstatus: u64)
    ensures
        restored(saved(mstatus), disabled(mstatus)) == mstatus,
{
    let low: u64 = mstatus & 0xFFu64;
    assert(low == (low as u8) as u64) by (bit_vector)
        requires
            low == mstatus & 0xFFu64,
    ;
    assert((mstatus & !0b1010u64) | ((mstatus & 0xFFu64) & 0b1010u64) == mstatus) by (bit_vector);
}

/// A second disable while the first holds saves SIE and MIE as clear;
/// restoring it keeps interrupts disabled, and only restoring the first brings
/// back the original.
pub proof fn lemma_nesting(mstatus: u64)
    ensures
        !interrupts_enabled(disabled(mstatus)),
        disabled(disabled(mstatus)) == disabled(mstatus),
        restored(saved(disabled(mstatus)), disabled(disabled(mstatus))) == disabled(mstatus),
        !interrupts_enabled(
            restored(saved(disabled(mstatus)), disabled(disabled(mstatus))),
        ),
        restored(
            saved(mstatus),
            restored(saved(disabled(mstatus)), disabled(disabled(mstatus))),
        ) == mstatus,
{
    let m = mstatus;
    assert((m & !0b1010u64) & 0b1010u64 == 0) by (bit_vector);
    assert((m & !0b1010u64) & !0b1010u64 == m & !0b1010u64) by (bit_vector);
    lemma_round_trip(m);
    lemma_round_trip(disabled(m));
}

/// Restoring changes no bit of `mstatus` but SIE and MIE, whatever the other
/// bits became since disabling, and of those two sets exactly the ones that
/// were saved as set, clearing neither.
pub proof fn lemma_restore_bit_exact(flags: Flags, mstatus: u64)
    ensures
        restored(flags, mstatus) & !ENABLE_BITS == mstatus & !ENABLE_BITS,
        restored(flags, mstatus) & ENABLE_BITS == (mstatus | (flags as u64)) & ENABLE_BITS,
{
    let f: u64 = flags as u64;
    assert((mstatus | (f & 0b1010u64)) & !0b1010u64 == mstatus & !0b1010u64) by (bit_vector);
    assert((mstatus | (f & 0b1010u64)) & 0b1010u64 == (mstatus | f) & 0b1010u64) by (bit_vector);
}

} // verus!
