//! What happens when a guarded value is misused.
//!
//! A trigger is told of every misuse with a diagnostic. It reacts, and says
//! whether the operation that found the misuse may go on. What a trigger
//! keeps between two firings (a count, a hook, a mark) it holds itself: one
//! trigger value serves every wrapper that is to share it.

use vstd::prelude::*;

pub mod abort;
pub mod counter;
pub mod empty_loop;
pub mod hook;
pub mod panic_trig;

verus! {

/// What the caller of a trigger is to do once the trigger has reacted.
#[derive(Debug, Clone, Copy, PartialEq, Eq, Structural, Hash)]
pub enum ControlOutcome {
    /// The caller must not go on: the thread or the process is to end, or
    /// control is never to come back.
    Diverges,
    /// The caller resumes as if nothing had been found.
    Continues,
}

impl ControlOutcome {
    /// Whether the caller must not go on.
    pub open spec fn spec_is_diverges(&self) -> bool {
        *self == ControlOutcome::Diverges
    }

    /// Whether the caller must not go on.
    #[verifier::when_used_as_spec(spec_is_diverges)]
    pub fn is_diverges(&self) -> (diverges: bool)
        ensures
            diverges == self.spec_is_diverges(),
    {
        matches!(self, ControlOutcome::Diverges)
    }

    /// Whether the caller resumes.
    pub open spec fn spec_is_continues(&self) -> bool {
        *self == ControlOutcome::Continues
    }

    /// Whether the caller resumes.
    #[verifier::when_used_as_spec(spec_is_continues)]
    pub fn is_continues(&self) -> (continues: bool)
        ensures
            continues == self.spec_is_continues(),
    {
        matches!(self, ControlOutcome::Continues)
    }
}

/// Implementation of behavior in case of detection of undefined manual
/// memory management.
pub trait TrigManuallyDrop: Sized {
    /// Whether one firing with the diagnostic `a` may turn `self` into
    /// `after` and end in `outcome`. A trigger that does not say so may do
    /// either, and keep what it likes.
    open spec fn spec_trig(&self, a: Seq<char>, after: &Self, outcome: ControlOutcome) -> bool {
        true
    }

    /// React to a misuse that the diagnostic `a` describes.
    fn trig_next_invalid_beh(&mut self, a: &str) -> (outcome: ControlOutcome)
        ensures
            old(self).spec_trig(a@, final(self), outcome),
    ;
}

/// What a check leaves behind: where it found a violation the trigger was
/// fired once, with the diagnostic `a`; where it found none the trigger was
/// not touched and the caller goes on.
pub open spec fn spec_trig_if<Trig: TrigManuallyDrop>(
    violation: bool,
    before: Trig,
    a: Seq<char>,
    after: Trig,
    outcome: ControlOutcome,
) -> bool {
    if violation {
        before.spec_trig(a, &after, outcome)
    } else {
        after == before && outcome == ControlOutcome::Continues
    }
}

} // verus!
