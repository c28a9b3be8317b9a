//! User mode on Unix: the saved state is the calling thread's signal mask.
//!
//! Disabling blocks every signal and returns the mask that was in force;
//! dropping the [`Guard`](crate::Guard) sets that mask again, exactly.

use nix::sys::signal::{SigSet, SigmaskHow};
use vstd::prelude::*;

verus! {

#[verifier::external_type_specification]
#[verifier::external_body]
pub struct ExSigSet(SigSet);

/// The signal mask that was in force before disabling.
pub type Flags = SigSet;

/// Relies on nix's `SigSet::all` and `SigSet::thread_swap_mask`: blocks every
/// signal for the calling thread (`pthread_sigmask(SIG_SETMASK, ..)`) and
/// returns the mask that was in force. nix reports a failure only where
/// `pthread_sigmask` returns -1, which it never does.
#[verifier::external_body]
pub(crate) fn read_disable() -> (r: Flags) {
    SigSet::all().thread_swap_mask(SigmaskHow::SIG_SETMASK).expect(
        "blocking all signals of the thread failed",
    )
}

} // verus!
