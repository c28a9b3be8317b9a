//! Temporarily disabling interrupts and signals on the current hardware thread.
//!
//! Each hardware backend is modelled by the arithmetic it performs on the
//! register that holds the interrupt-enable state: what it saves, what the
//! register holds once interrupts are off, and what restoring writes back.
//! The user-mode backend, which [`disable`] and [`without`] use, masks the
//! signals of the calling thread.
//!
//! Interrupts are disabled on a best-effort basis: nothing prevents code from
//! enabling them again by hand, and dropping [`Guard`]s out of the order in
//! which they were made may enable them while another guard is still held.

use std::marker::PhantomData;
use std::rc::Rc;

use vstd::prelude::*;

pub mod aarch64;
pub mod marker;
pub mod riscv64;
mod unix;
pub mod unsupported;
pub mod x86_64;

pub use marker::{InterruptSend, InterruptSync};

verus! {

/// An interrupt guard, made by [`disable`].
///
/// While it is held, interrupts are disabled. When it is dropped, interrupts
/// are restored to the state that they had before it was made.
///
/// Each guard remembers only its own prior state: dropping guards out of the
/// order in which they were made may enable interrupts again while another
/// guard is still held. Guards that stay in their drop scope are dropped in
/// the right order.
pub struct Guard {
    flags: unix::Flags,
    /// Interrupts are per hardware thread: a guard must not be sent to
    /// another thread, or it would restore the state there.
    _not_send: PhantomData<Rc<()>>,
}

/// Temporarily disables interrupts; they are restored when the returned
/// [`Guard`] is dropped.
pub fn disable() -> (g: Guard) {
    Guard { flags: unix::read_disable(), _not_send: PhantomData }
}

impl Drop for Guard {
    /// Relies on nix's `SigSet::thread_set_mask`: makes the saved mask the
    /// calling thread's signal mask again (`pthread_sigmask(SIG_SETMASK, ..)`).
    /// nix reports a failure only where `pthread_sigmask` returns -1, which it
    /// never does.
    #[verifier::external_body]
    fn drop(&mut self)
        opens_invariants none
        no_unwind
    {
        self.flags.thread_set_mask().expect("restoring the signal mask of the thread failed")
    }
}

/// Runs `f` with interrupts disabled, and restores them afterwards to the
/// state they had before, also where `f` unwinds. Calls nest: an inner call
/// leaves interrupts disabled for the rest of the outer one.
pub fn without<F, R>(f: F) -> (r: R)
    where
        F: FnOnce() -> R,
    requires
        f.requires(()),
    ensures
        f.ensures((), r),
{
    let ret = {
        let _guard = disable();
        f()
    };
    ret
}

} // verus!
