//! Flags used when building with this library.
//!
//! A build says with its flags whether the wrappers that follow the build
//! are to check their use, and which trigger is the default one. The flags
//! are plain values here; what they ask for is computed from them.

use vstd::prelude::*;

verus! {

/// The kinds of trigger that a build can ask for.
#[derive(Debug, Clone, Copy, PartialEq, Eq, Structural, Hash)]
pub enum TrigKind {
    /// The calling thread panics.
    Panic,
    /// The process ends.
    Abort,
    /// A hook function is called.
    Hook,
    /// A counter is advanced.
    Counter,
    /// The calling thread loops forever.
    Loop,
}

/// The flags of a build.
#[derive(Debug, Clone, Copy, PartialEq, Eq, Structural, Hash)]
pub struct BuildFlags {
    /// The build checks debug assertions.
    pub debug_assertions: bool,
    /// The wrappers that follow the build check their use whenever the build
    /// checks debug assertions.
    pub always_check_in_case_debug_assertions: bool,
    /// The wrappers that follow the build always check their use.
    pub always_safe_manuallydrop: bool,
    /// The looping trigger keeps a mark of having been called.
    pub support_istrig_loop: bool,
    /// The panicking trigger is available.
    pub support_panic_trig: bool,
    /// The aborting trigger is available.
    pub support_abort_trig: bool,
    /// The hook trigger is available.
    pub support_hookfn_trig: bool,
    /// The counting trigger is available.
    pub support_count_trig: bool,
    /// The default trigger is the panicking one.
    pub always_deftrig_panic: bool,
    /// The default trigger is the aborting one.
    pub always_deftrig_abort: bool,
    /// The default trigger is the hook.
    pub always_deftrig_hookfn: bool,
    /// The default trigger is the counting one.
    pub always_deftrig_count: bool,
    /// The default trigger is the looping one.
    pub always_deftrig_loop: bool,
}

impl BuildFlags {
    /// Whether the wrappers that follow the build check their use.
    pub open spec fn spec_is_safe_mode(&self) -> bool {
        self.always_safe_manuallydrop || (self.always_check_in_case_debug_assertions
            && self.debug_assertions)
    }

    /// Whether the build names no default trigger, so that it is found from
    /// the triggers that are available.
    pub open spec fn spec_is_auto_detect_deftrig(&self) -> bool {
        !self.always_deftrig_panic && !self.always_deftrig_abort && !self.always_deftrig_hookfn
            && !self.always_deftrig_count && !self.always_deftrig_loop
    }

    /// Whether the build names every trigger as the default one, so that
    /// what it asks for cannot be told.
    pub open spec fn spec_is_invalid_auto_detect_deftrig(&self) -> bool {
        self.always_deftrig_panic && self.always_deftrig_abort && self.always_deftrig_hookfn
            && self.always_deftrig_count && self.always_deftrig_loop
    }

    /// Whether a kind of trigger is available in the build. The looping one
    /// always is.
    pub open spec fn spec_supports(&self, kind: TrigKind) -> bool {
        match kind {
            TrigKind::Panic => self.support_panic_trig,
            TrigKind::Abort => self.support_abort_trig,
            TrigKind::Hook => self.support_hookfn_trig,
            TrigKind::Counter => self.support_count_trig,
            TrigKind::Loop => true,
        }
    }

    /// Whether the build names `kind` as the default trigger, and no other.
    pub open spec fn spec_names_only(&self, kind: TrigKind) -> bool {
        &&& self.always_deftrig_panic == (kind == TrigKind::Panic)
        &&& self.always_deftrig_abort == (kind == TrigKind::Abort)
        &&& self.always_deftrig_hookfn == (kind == TrigKind::Hook)
        &&& self.always_deftrig_count == (kind == TrigKind::Counter)
        &&& self.always_deftrig_loop == (kind == TrigKind::Loop)
    }

    /// Whether, of the four triggers that a flag makes available, the build
    /// has `kind` and no other; for the looping trigger, whether it has none
    /// of the four.
    pub open spec fn spec_supports_only(&self, kind: TrigKind) -> bool {
        &&& self.support_panic_trig == (kind == TrigKind::Panic)
        &&& self.support_abort_trig == (kind == TrigKind::Abort)
        &&& self.support_hookfn_trig == (kind == TrigKind::Hook)
        &&& self.support_count_trig == (kind == TrigKind::Counter)
    }

    /// Whether the build has all four triggers that a flag makes available.
    pub open spec fn spec_supports_all(&self) -> bool {
        self.support_panic_trig && self.support_abort_trig && self.support_hookfn_trig
            && self.support_count_trig
    }

    /// Whether `kind` is the default trigger of the build.
    ///
    /// A build that names default triggers gets the one it names if it
    /// names no other and that one is available; one that names all five
    /// gets the panicking one, if that is available. A build that names
    /// none gets the one trigger that a flag makes available; the panicking
    /// one if all four are, the looping one if none is.
    pub open spec fn spec_is_def_trig(&self, kind: TrigKind) -> bool {
        if self.spec_is_invalid_auto_detect_deftrig() {
            kind == TrigKind::Panic && self.support_panic_trig
        } else if !self.spec_is_auto_detect_deftrig() {
            self.spec_names_only(kind) && self.spec_supports(kind)
        } else if self.spec_supports_all() {
            kind == TrigKind::Panic
        } else {
            self.spec_supports_only(kind)
        }
    }

    /// The default trigger of the build, if the flags fix one.
    pub open spec fn spec_def_trig(&self) -> Option<TrigKind> {
        if self.spec_is_def_trig(TrigKind::Panic) {
            Some(TrigKind::Panic)
        } else if self.spec_is_def_trig(TrigKind::Abort) {
            Some(TrigKind::Abort)
        } else if self.spec_is_def_trig(TrigKind::Hook) {
            Some(TrigKind::Hook)
        } else if self.spec_is_def_trig(TrigKind::Counter) {
            Some(TrigKind::Counter)
        } else if self.spec_is_def_trig(TrigKind::Loop) {
            Some(TrigKind::Loop)
        } else {
            None
        }
    }

    /// A build has at most one default trigger.
    pub proof fn lemma_def_trig_is_unique(&self, kind: TrigKind, other: TrigKind)
        requires
            self.spec_is_def_trig(kind),
            self.spec_is_def_trig(other),
        ensures
            kind == other,
            self.spec_def_trig() == Some(kind),
    {
    }

    /// A build with no flag set.
    pub fn new() -> (flags: Self)
        ensures
            flags == (BuildFlags {
                debug_assertions: false,
                always_check_in_case_debug_assertions: false,
                always_safe_manuallydrop: false,
                support_istrig_loop: false,
                support_panic_trig: false,
                support_abort_trig: false,
                support_hookfn_trig: false,
                support_count_trig: false,
                always_deftrig_panic: false,
                always_deftrig_abort: false,
                always_deftrig_hookfn: false,
                always_deftrig_count: false,
                always_deftrig_loop: false,
            }),
    {
        BuildFlags {
            debug_assertions: false,
            always_check_in_case_debug_assertions: false,
            always_safe_manuallydrop: false,
            support_istrig_loop: false,
            support_panic_trig: false,
            support_abort_trig: false,
            support_hookfn_trig: false,
            support_count_trig: false,
            always_deftrig_panic: false,
            always_deftrig_abort: false,
            always_deftrig_hookfn: false,
            always_deftrig_count: false,
            always_deftrig_loop: false,
        }
    }

    /// Depending on the build flags, the wrappers that follow the build are
    /// the protected or the unprotected version of ManuallyDrop.
    #[verifier::when_used_as_spec(spec_is_safe_mode)]
    pub fn is_safe_mode(&self) -> (safe: bool)
        ensures
            safe == self.spec_is_safe_mode(),
    {
        self.always_safe_manuallydrop || (self.always_check_in_case_debug_assertions
            && self.debug_assertions)
    }

    /// Whether the default behavior autodetection is used for ManuallyDrop.
    #[verifier::when_used_as_spec(spec_is_auto_detect_deftrig)]
    pub fn is_auto_detect_deftrig(&self) -> (auto: bool)
        ensures
            auto == self.spec_is_auto_detect_deftrig(),
    {
        !(self.always_deftrig_panic || self.always_deftrig_abort || self.always_deftrig_hookfn
            || self.always_deftrig_count || self.always_deftrig_loop)
    }

    /// Whether the build was done with every default trigger named, so that
    /// the required behavior cannot be determined.
    #[verifier::when_used_as_spec(spec_is_invalid_auto_detect_deftrig)]
    pub fn is_invalid_auto_detect_deftrig(&self) -> (invalid: bool)
        ensures
            invalid == self.spec_is_invalid_auto_detect_deftrig(),
    {
        self.always_deftrig_panic && self.always_deftrig_abort && self.always_deftrig_hookfn
            && self.always_deftrig_count && self.always_deftrig_loop
    }

    /// Whether a kind of trigger is available in the build.
    #[verifier::when_used_as_spec(spec_supports)]
    pub fn supports(&self, kind: TrigKind) -> (supported: bool)
        ensures
            supported == self.spec_supports(kind),
    {
        match kind {
            TrigKind::Panic => self.support_panic_trig,
            TrigKind::Abort => self.support_abort_trig,
            TrigKind::Hook => self.support_hookfn_trig,
            TrigKind::Counter => self.support_count_trig,
            TrigKind::Loop => true,
        }
    }

    /// The default trigger of the build: the one that is executed in case
    /// of undefined behavior of a wrapper for which no trigger was chosen.
    /// `None` where the flags contradict each other and fix none.
    pub fn def_trig(&self) -> (def: Option<TrigKind>)
        ensures
            def == self.spec_def_trig(),
            match def {
                Some(kind) => self.spec_is_def_trig(kind),
                None => forall|kind: TrigKind| !self.spec_is_def_trig(kind),
            },
    {
        let named: u8 = count(self.always_deftrig_panic) + count(self.always_deftrig_abort) + count(
            self.always_deftrig_hookfn,
        ) + count(self.always_deftrig_count) + count(self.always_deftrig_loop);
        let supported: u8 = count(self.support_panic_trig) + count(self.support_abort_trig)
            + count(self.support_hookfn_trig) + count(self.support_count_trig);
        let picked = if named == 5 {
            TrigKind::Panic
        } else if named > 1 {
            return None;
        } else if named == 1 {
            if self.always_deftrig_panic {
                TrigKind::Panic
            } else if self.always_deftrig_abort {
                TrigKind::Abort
            } else if self.always_deftrig_hookfn {
                TrigKind::Hook
            } else if self.always_deftrig_count {
                TrigKind::Counter
            } else {
                TrigKind::Loop
            }
        } else if supported == 4 {
            return Some(TrigKind::Panic);
        } else if supported > 1 {
            return None;
        } else if self.support_panic_trig {
            TrigKind::Panic
        } else if self.support_abort_trig {
            TrigKind::Abort
        } else if self.support_hookfn_trig {
            TrigKind::Hook
        } else if self.support_count_trig {
            TrigKind::Counter
        } else {
            return Some(TrigKind::Loop);
        };
        if self.supports(picked) {
            Some(picked)
        } else {
            None
        }
    }
}

/// One for a flag that is set, zero for one that is not.
fn count(flag: bool) -> (n: u8)
    ensures
        n == if flag { 1u8 } else { 0u8 },
{
    if flag {
        1
    } else {
        0
    }
}

} // verus!
