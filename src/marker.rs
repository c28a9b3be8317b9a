//! Capabilities for handing values to, or sharing them with, an interrupt or
//! signal handler on the same hardware thread.

use vstd::prelude::*;

verus! {

/// Types that can be transferred across interrupt handler boundaries on the
/// same hardware thread.
///
/// Exactly like [`Send`] but for interrupt handlers: every `Send` type has it.
/// Any other type must opt in with an explicit impl, which states that its
/// values are only ever touched from one hardware thread.
pub trait InterruptSend {}

impl<T: ?Sized + Send> InterruptSend for T {}

/// Types for which it is safe to share references with interrupt handlers on
/// the same hardware thread.
///
/// Exactly like [`Sync`] but for interrupt handlers: every `Sync` type has it.
/// Any other type must opt in with an explicit impl.
pub trait InterruptSync {}

impl<T: ?Sized + Sync> InterruptSync for T {}

} // verus!
