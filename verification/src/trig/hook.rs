//! The trigger that calls a hook.

use vstd::prelude::*;
use crate::trig::ControlOutcome;
use crate::trig::TrigManuallyDrop;

verus! {

/// In case of undefined behavior of manual memory management, execute a
/// hook.
///
/// The hook is a function of the caller's choice. It is given the
/// diagnostic and is expected not to come back; where it does, its answer
/// decides how the caller goes on. As long as none is installed the trigger
/// asks for a panic.
pub struct HookFnTrigManuallyDrop<F: Fn(&str) -> ControlOutcome> {
    hook: Option<F>,
}

impl<F: Fn(&str) -> ControlOutcome> HookFnTrigManuallyDrop<F> {
    /// The installed hook can be called with every diagnostic.
    #[verifier::type_invariant]
    spec fn wf(&self) -> bool {
        match self.hook {
            Some(function) => spec_hook_accepts_all(function),
            None => true,
        }
    }

    /// The hook that is installed, if any.
    pub closed spec fn spec_hook(&self) -> Option<F> {
        self.hook
    }

    /// A trigger with no hook installed.
    pub fn new() -> (trig: Self)
        ensures
            trig.spec_hook().is_none(),
    {
        HookFnTrigManuallyDrop { hook: None }
    }

    /// Install a hook function to be executed in case of undefined behavior
    /// of ManuallyDrop logic. It takes the place of the one before.
    pub fn install_hook(&mut self, function: F)
        requires
            spec_hook_accepts_all(function),
        ensures
            final(self).spec_hook() == Some(function),
    {
        self.hook = Some(function);
    }

    /// Get the hook function that will be executed in case of undefined
    /// behavior of the ManuallyDrop logic; `None` while the trigger is as it
    /// was made.
    pub fn take_hook(&self) -> (function: Option<&F>)
        ensures
            function == match self.spec_hook() {
                Some(function) => Some(&function),
                None => None,
            },
            function matches Some(function) ==> spec_hook_accepts_all(*function),
    {
        proof {
            use_type_invariant(self);
        }
        self.hook.as_ref()
    }

    /// Execute the hook function, as in case of undefined behavior of the
    /// ManuallyDrop logic.
    pub fn run_hook(&self, args: &str) -> (outcome: ControlOutcome)
        ensures
            spec_run_hook(self.spec_hook(), args@, outcome),
    {
        match self.take_hook() {
            Some(function) => function(args),
            None => ControlOutcome::Diverges,
        }
    }
}

/// Whether a function can be called with every diagnostic.
pub open spec fn spec_hook_accepts_all<F: Fn(&str) -> ControlOutcome>(function: F) -> bool {
    forall|args: &str| call_requires(function, (args,))
}

/// Whether a run of the hook `function` on the diagnostic `a` may end in
/// `outcome`: the hook was called with `a` and gave `outcome`, or there is
/// no hook and the outcome is `Diverges`.
pub open spec fn spec_run_hook<F: Fn(&str) -> ControlOutcome>(
    function: Option<F>,
    a: Seq<char>,
    outcome: ControlOutcome,
) -> bool {
    match function {
        Some(function) => exists|args: &str| args@ == a && call_ensures(function, (args,), outcome),
        None => outcome == ControlOutcome::Diverges,
    }
}

impl<F: Fn(&str) -> ControlOutcome> TrigManuallyDrop for HookFnTrigManuallyDrop<F> {
    open spec fn spec_trig(&self, a: Seq<char>, after: &Self, outcome: ControlOutcome) -> bool {
        &&& after.spec_hook() == self.spec_hook()
        &&& spec_run_hook(self.spec_hook(), a, outcome)
    }

    fn trig_next_invalid_beh(&mut self, a: &str) -> (outcome: ControlOutcome) {
        self.run_hook(a)
    }
}

/// Install a hook function to be executed in case of undefined behavior of
/// ManuallyDrop logic.
pub fn install_hook<F: Fn(&str) -> ControlOutcome>(trig: &mut HookFnTrigManuallyDrop<F>, function: F)
    requires
        spec_hook_accepts_all(function),
    ensures
        final(trig).spec_hook() == Some(function),
{
    trig.install_hook(function);
}

/// Get the hook function that will be executed in case of undefined behavior
/// of the ManuallyDrop logic.
pub fn take_hook<F: Fn(&str) -> ControlOutcome>(trig: &HookFnTrigManuallyDrop<F>) -> (function:
    Option<&F>)
    ensures
        function == match trig.spec_hook() {
            Some(function) => Some(&function),
            None => None,
        },
        function matches Some(function) ==> spec_hook_accepts_all(*function),
{
    trig.take_hook()
}

/// Execute the hook function, as in case of undefined behavior of the
/// ManuallyDrop logic.
pub fn run_hook<F: Fn(&str) -> ControlOutcome>(trig: &HookFnTrigManuallyDrop<F>, args: &str) -> (outcome:
    ControlOutcome)
    ensures
        spec_run_hook(trig.spec_hook(), args@, outcome),
{
    trig.run_hook(args)
}

/// Protected version of the SafeManuallyDrop with an execution function in
/// case of undefined behavior of the ManuallyDrop logic.
pub type AlwaysSafeHookManuallyDrop<T, F> = crate::beh::safe::SafeManuallyDrop<
    T,
    HookFnTrigManuallyDrop<F>,
>;

/// Protected or unprotected version of ManuallyDrop with function execution
/// in case of undefined behavior of ManuallyDrop logic.
pub type AutoSafeHookManuallyDrop<T, F> = crate::beh::auto::AutoSafeManuallyDrop<
    T,
    HookFnTrigManuallyDrop<F>,
>;

impl<F: Fn(&str) -> ControlOutcome> AutoSafeHookManuallyDrop<(), F> {
    /// Install a hook function to be executed in case of undefined behavior
    /// of ManuallyDrop logic.
    pub fn install_hook(trig: &mut HookFnTrigManuallyDrop<F>, function: F)
        requires
            spec_hook_accepts_all(function),
        ensures
            final(trig).spec_hook() == Some(function),
    {
        self::install_hook(trig, function)
    }

    /// Get the hook function that will be executed in case of undefined
    /// behavior of the ManuallyDrop logic.
    pub fn take_hook(trig: &HookFnTrigManuallyDrop<F>) -> (function: Option<&F>)
        ensures
            function == match trig.spec_hook() {
                Some(function) => Some(&function),
                None => None,
            },
            function matches Some(function) ==> spec_hook_accepts_all(*function),
    {
        self::take_hook(trig)
    }

    /// Execute the hook function, as in case of undefined behavior of the
    /// ManuallyDrop logic.
    pub fn run_hook(trig: &HookFnTrigManuallyDrop<F>, args: &str) -> (outcome: ControlOutcome)
        ensures
            spec_run_hook(trig.spec_hook(), args@, outcome),
    {
        self::run_hook(trig, args)
    }
}

} // verus!
