//! The trigger that asks for the process to end.

use vstd::prelude::*;
use crate::trig::ControlOutcome;
use crate::trig::TrigManuallyDrop;

verus! {

/// In case of undefined behavior of manual memory management, the
/// diagnostic is to be written to the error stream and the process is to end
/// at once, without unwinding.
#[derive(Debug, Clone, Copy, PartialEq, Eq, Structural, Hash)]
pub enum AbortTrigManuallyDrop {
    /// The one trigger of this kind; it keeps nothing.
    Abort,
}

impl TrigManuallyDrop for AbortTrigManuallyDrop {
    open spec fn spec_trig(&self, a: Seq<char>, after: &Self, outcome: ControlOutcome) -> bool {
        outcome == ControlOutcome::Diverges && *after == *self
    }

    fn trig_next_invalid_beh(&mut self, a: &str) -> (outcome: ControlOutcome) {
        ControlOutcome::Diverges
    }
}

/// A protected version of ManuallyDrop with a function to execute an abort
/// in case of undefined behavior of the ManuallyDrop logic.
pub type AlwaysSafeAbortManuallyDrop<T> = crate::beh::safe::SafeManuallyDrop<
    T,
    AbortTrigManuallyDrop,
>;

/// A secure or non-secure version of ManuallyDrop with a function to trigger
/// an abort in case of undefined behavior of the ManuallyDrop logic.
pub type AutoSafeAbortManuallyDrop<T> = crate::beh::auto::AutoSafeManuallyDrop<
    T,
    AbortTrigManuallyDrop,
>;

} // verus!
