//! The trigger that asks for the thread to hang.

use vstd::prelude::*;
use crate::trig::ControlOutcome;
use crate::trig::TrigManuallyDrop;

verus! {

/// On undefined behavior the calling thread is to loop forever. Where the
/// trigger was made to keep a mark, other threads can find out that some
/// thread hangs.
#[derive(Debug)]
pub struct EmptyLoopTrigManuallyDrop {
    support_istrig_loop: bool,
    is_trig: bool,
}

impl EmptyLoopTrigManuallyDrop {
    /// Only a trigger that keeps marks can be marked.
    #[verifier::type_invariant]
    spec fn wf(&self) -> bool {
        self.is_trig ==> self.support_istrig_loop
    }

    /// Whether the trigger keeps a mark of having been called.
    pub closed spec fn spec_support_istrig_loop(&self) -> bool {
        self.support_istrig_loop
    }

    /// Whether the trigger is marked as having been called.
    pub closed spec fn spec_is_trig(&self) -> bool {
        self.is_trig
    }

    /// A trigger that was never called. With `support_istrig_loop` it keeps
    /// a mark of being called; without, it never tells.
    pub fn new(support_istrig_loop: bool) -> (trig: Self)
        ensures
            trig.spec_support_istrig_loop() == support_istrig_loop,
            !trig.spec_is_trig(),
    {
        EmptyLoopTrigManuallyDrop { support_istrig_loop, is_trig: false }
    }

    /// Whether the trigger keeps a mark of having been called.
    #[verifier::when_used_as_spec(spec_support_istrig_loop)]
    pub fn support_istrig_loop(&self) -> (support: bool)
        ensures
            support == self.spec_support_istrig_loop(),
    {
        self.support_istrig_loop
    }

    /// Check if at least one thread has been looped to avoid undefined
    /// behavior.
    #[verifier::when_used_as_spec(spec_is_trig)]
    pub fn is_trig_next_invalid_beh(&self) -> (is_trig: bool)
        ensures
            is_trig == self.spec_is_trig(),
            is_trig ==> self.spec_support_istrig_loop(),
    {
        proof {
            use_type_invariant(self);
        }
        self.is_trig
    }
}

impl TrigManuallyDrop for EmptyLoopTrigManuallyDrop {
    open spec fn spec_trig(&self, a: Seq<char>, after: &Self, outcome: ControlOutcome) -> bool {
        &&& outcome == ControlOutcome::Diverges
        &&& after.spec_support_istrig_loop() == self.spec_support_istrig_loop()
        &&& after.spec_is_trig() == self.spec_support_istrig_loop()
    }

    fn trig_next_invalid_beh(&mut self, a: &str) -> (outcome: ControlOutcome) {
        self::trig_next_invalid_beh(self);
        ControlOutcome::Diverges
    }
}

/// Marks the presence of a looped thread, where the trigger keeps marks.
pub fn trig_next_invalid_beh(trig: &mut EmptyLoopTrigManuallyDrop)
    ensures
        final(trig).spec_support_istrig_loop() == old(trig).spec_support_istrig_loop(),
        final(trig).spec_is_trig() == old(trig).spec_support_istrig_loop(),
{
    proof {
        use_type_invariant(&*trig);
    }
    if trig.support_istrig_loop {
        trig.is_trig = true;
    }
}

/// Check if at least one thread has been looped to avoid undefined behavior.
/// A trigger that keeps no marks always answers `false`.
pub fn is_trig_next_invalid_beh(trig: &EmptyLoopTrigManuallyDrop) -> (is_trig: bool)
    ensures
        is_trig == trig.spec_is_trig(),
        is_trig ==> trig.spec_support_istrig_loop(),
{
    trig.is_trig_next_invalid_beh()
}

/// The safe version of ManuallyDrop loops the current thread in case of
/// undefined behavior.
pub type AlwaysSafeEmptyLoopManuallyDrop<T> = crate::beh::safe::SafeManuallyDrop<
    T,
    EmptyLoopTrigManuallyDrop,
>;

/// The safe or unsafe version of ManuallyDrop loops the current thread in
/// case of undefined behavior.
pub type AutoSafeEmptyLoopManuallyDrop<T> = crate::beh::auto::AutoSafeManuallyDrop<
    T,
    EmptyLoopTrigManuallyDrop,
>;

impl AutoSafeEmptyLoopManuallyDrop<()> {
    /// Check if at least one thread has been looped to avoid undefined
    /// behavior.
    pub fn is_trig_next_invalid_beh(trig: &EmptyLoopTrigManuallyDrop) -> (is_trig: bool)
        ensures
            is_trig == trig.spec_is_trig(),
            is_trig ==> trig.spec_support_istrig_loop(),
    {
        self::is_trig_next_invalid_beh(trig)
    }
}

} // verus!
