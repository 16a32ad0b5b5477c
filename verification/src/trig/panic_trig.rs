//! The trigger that asks for a panic.

use vstd::prelude::*;
use crate::trig::ControlOutcome;
use crate::trig::TrigManuallyDrop;

verus! {

/// In case of undefined behavior of manual memory management, the calling
/// thread is to unwind with the diagnostic as its message.
#[derive(Debug, Clone, Copy, PartialEq, Eq, Structural, Hash)]
pub enum PanicTrigManuallyDrop {
    /// The one trigger of this kind; it keeps nothing.
    Panic,
}

impl TrigManuallyDrop for PanicTrigManuallyDrop {
    open spec fn spec_trig(&self, a: Seq<char>, after: &Self, outcome: ControlOutcome) -> bool {
        outcome == ControlOutcome::Diverges && *after == *self
    }

    fn trig_next_invalid_beh(&mut self, a: &str) -> (outcome: ControlOutcome) {
        ControlOutcome::Diverges
    }
}

/// A protected version of ManuallyDrop with a function to execute a panic in
/// case of undefined behavior of the ManuallyDrop logic.
pub type AlwaysSafePanicManuallyDrop<T> = crate::beh::safe::SafeManuallyDrop<
    T,
    PanicTrigManuallyDrop,
>;

/// A secure or non-secure version of ManuallyDrop with a function to trigger
/// a panic in case of undefined behavior of the ManuallyDrop logic.
pub type AutoSafePanicManuallyDrop<T> = crate::beh::auto::AutoSafeManuallyDrop<
    T,
    PanicTrigManuallyDrop,
>;

} // verus!
