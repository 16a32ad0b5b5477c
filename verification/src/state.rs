//! The lifecycle state of a guarded value.

use vstd::prelude::*;
use crate::trig::ControlOutcome;
use crate::trig::TrigManuallyDrop;

verus! {

/// What has already happened to a guarded value.
#[derive(Debug, Clone, Copy, PartialEq, Eq, Structural, PartialOrd, Ord, Hash)]
pub enum StateManuallyDropData {
    /// Nothing has happened yet: the value may be read, taken or released
    /// without calling a trigger.
    Empty,
    /// The value was moved out; any further work with it calls the trigger.
    TakeModeTrig,
    /// The value was released; any further work with it calls the trigger.
    DropModeTrig,
    /// The wrapper was unwrapped; any further work with it calls the trigger.
    IntoInnerModeTrig,
    /// The value is to be left alone when the wrapper goes away; any further
    /// work with it calls the trigger.
    IgnoreTrigWhenDrop,
}

impl StateManuallyDropData {
    /// The byte that stands for a state.
    pub open spec fn spec_byte(self) -> u8 {
        match self {
            StateManuallyDropData::Empty => 1,
            StateManuallyDropData::TakeModeTrig => 5,
            StateManuallyDropData::DropModeTrig => 15,
            StateManuallyDropData::IntoInnerModeTrig => 25,
            StateManuallyDropData::IgnoreTrigWhenDrop => 30,
        }
    }

    /// The state that a byte stands for, if there is one.
    pub open spec fn spec_from(a: u8) -> Option<Self> {
        if a == StateManuallyDropData::Empty.spec_byte() {
            Some(StateManuallyDropData::Empty)
        } else if a == StateManuallyDropData::TakeModeTrig.spec_byte() {
            Some(StateManuallyDropData::TakeModeTrig)
        } else if a == StateManuallyDropData::DropModeTrig.spec_byte() {
            Some(StateManuallyDropData::DropModeTrig)
        } else if a == StateManuallyDropData::IntoInnerModeTrig.spec_byte() {
            Some(StateManuallyDropData::IntoInnerModeTrig)
        } else if a == StateManuallyDropData::IgnoreTrigWhenDrop.spec_byte() {
            Some(StateManuallyDropData::IgnoreTrigWhenDrop)
        } else {
            None
        }
    }

    /// Whether a byte stands for a state.
    pub open spec fn spec_is_valid_byte(a: u8) -> bool {
        Self::spec_from(a).is_some()
    }

    /// A byte stands for a state exactly if it is the byte of that state:
    /// no two states share a byte, and to convert a state to its byte and
    /// back gives the state.
    pub proof fn lemma_byte_of_state(a: u8, state: Self)
        ensures
            Self::spec_from(a) == Some(state) <==> state.spec_byte() == a,
            Self::spec_from(state.spec_byte()) == Some(state),
            Self::spec_is_valid_byte(state.spec_byte()),
            Self::spec_from_or_empty(state.spec_byte()) == state,
    {
    }

    /// The state that a byte stands for, and `Empty` for every other byte.
    pub open spec fn spec_from_or_empty(a: u8) -> Self {
        match Self::spec_from(a) {
            Some(state) => state,
            None => StateManuallyDropData::Empty,
        }
    }

    /// Whether this is the state of a value that nothing has happened to.
    pub open spec fn spec_is_empty(&self) -> bool {
        *self == StateManuallyDropData::Empty
    }

    /// Whether the next operation on a value in this state calls the trigger.
    pub open spec fn spec_is_next_trig(&self) -> bool {
        *self != StateManuallyDropData::Empty
    }

    /// The name of a state, as it stands in a diagnostic.
    pub open spec fn spec_name(self) -> Seq<char> {
        match self {
            StateManuallyDropData::Empty => "Empty"@,
            StateManuallyDropData::TakeModeTrig => "TakeModeTrig"@,
            StateManuallyDropData::DropModeTrig => "DropModeTrig"@,
            StateManuallyDropData::IntoInnerModeTrig => "IntoInnerModeTrig"@,
            StateManuallyDropData::IgnoreTrigWhenDrop => "IgnoreTrigWhenDrop"@,
        }
    }

    /// Convert state to byte.
    pub fn into(self) -> (byte: u8)
        ensures
            byte == self.spec_byte(),
    {
        match self {
            StateManuallyDropData::Empty => 1,
            StateManuallyDropData::TakeModeTrig => 5,
            StateManuallyDropData::DropModeTrig => 15,
            StateManuallyDropData::IntoInnerModeTrig => 25,
            StateManuallyDropData::IgnoreTrigWhenDrop => 30,
        }
    }

    /// Whether a byte stands for a state.
    pub fn is_valid_byte(a: u8) -> (valid: bool)
        ensures
            valid == Self::spec_is_valid_byte(a),
    {
        a == StateManuallyDropData::Empty.into() || a == StateManuallyDropData::TakeModeTrig.into()
            || a == StateManuallyDropData::DropModeTrig.into()
            || a == StateManuallyDropData::IntoInnerModeTrig.into()
            || a == StateManuallyDropData::IgnoreTrigWhenDrop.into()
    }

    /// Validates a state byte and runs one of two functions.
    ///
    /// Returns what `next` returns if the byte stands for a state, and what
    /// `errf` returns otherwise. The other function is not called.
    pub fn validate_with_fns<R>(
        a: u8,
        next: impl FnOnce() -> R,
        errf: impl FnOnce() -> R,
    ) -> (result: R)
        requires
            Self::spec_is_valid_byte(a) ==> call_requires(next, ()),
            !Self::spec_is_valid_byte(a) ==> call_requires(errf, ()),
        ensures
            Self::spec_is_valid_byte(a) ==> call_ensures(next, (), result),
            !Self::spec_is_valid_byte(a) ==> call_ensures(errf, (), result),
    {
        if Self::is_valid_byte(a) {
            next()
        } else {
            errf()
        }
    }

    /// Create a state from a byte that is known to stand for one.
    pub fn unchecked_from(a: u8) -> (state: Self)
        requires
            Self::spec_is_valid_byte(a),
        ensures
            state.spec_byte() == a,
            Self::spec_from(a) == Some(state),
    {
        if a == 1 {
            StateManuallyDropData::Empty
        } else if a == 5 {
            StateManuallyDropData::TakeModeTrig
        } else if a == 15 {
            StateManuallyDropData::DropModeTrig
        } else if a == 25 {
            StateManuallyDropData::IntoInnerModeTrig
        } else {
            StateManuallyDropData::IgnoreTrigWhenDrop
        }
    }

    /// Create a state from a byte; every byte that stands for no state gives
    /// the empty state.
    pub fn from_or_empty(a: u8) -> (state: Self)
        ensures
            state == Self::spec_from_or_empty(a),
    {
        let next = || -> (state: Self)
            requires
                Self::spec_is_valid_byte(a),
            ensures
                Self::spec_from(a) == Some(state),
            { Self::unchecked_from(a) };
        let errf = || -> (state: Self)
            ensures
                state == StateManuallyDropData::Empty,
            { Self::empty() };
        Self::validate_with_fns(a, next, errf)
    }

    /// Create a state from a byte, return `None` if it stands for none.
    pub fn from(a: u8) -> (state: Option<Self>)
        ensures
            state == Self::spec_from(a),
    {
        let next = || -> (state: Option<Self>)
            requires
                Self::spec_is_valid_byte(a),
            ensures
                state == Self::spec_from(a),
            { Some(Self::unchecked_from(a)) };
        let errf = || -> (state: Option<Self>)
            ensures
                state.is_none(),
            { None };
        Self::validate_with_fns(a, next, errf)
    }

    /// Create the state of a value that nothing has happened to.
    pub fn empty() -> (state: Self)
        ensures
            state == StateManuallyDropData::Empty,
    {
        StateManuallyDropData::Empty
    }

    /// Create the one state in which no operation calls a trigger.
    pub fn no_panic_state() -> (state: Self)
        ensures
            state == StateManuallyDropData::Empty,
            !state.spec_is_next_trig(),
    {
        Self::empty()
    }

    /// Determining if a trigger should be executed.
    #[verifier::when_used_as_spec(spec_is_next_trig)]
    pub fn is_next_trig(&self) -> (next_trig: bool)
        ensures
            next_trig == self.spec_is_next_trig(),
    {
        !matches!(self, StateManuallyDropData::Empty)
    }

    /// Whether the current state is like a new unused object.
    #[verifier::when_used_as_spec(spec_is_empty)]
    pub fn is_empty(&self) -> (empty: bool)
        ensures
            empty == self.spec_is_empty(),
    {
        matches!(self, StateManuallyDropData::Empty)
    }

    /// The name of the state.
    pub fn as_str(&self) -> (name: &'static str)
        ensures
            name@ == self.spec_name(),
    {
        match self {
            StateManuallyDropData::Empty => "Empty",
            StateManuallyDropData::TakeModeTrig => "TakeModeTrig",
            StateManuallyDropData::DropModeTrig => "DropModeTrig",
            StateManuallyDropData::IntoInnerModeTrig => "IntoInnerModeTrig",
            StateManuallyDropData::IgnoreTrigWhenDrop => "IgnoreTrigWhenDrop",
        }
    }

    /// The name of the state, as an owned string.
    pub fn to_string(&self) -> (name: String)
        ensures
            name@ == self.spec_name(),
    {
        String::from_str(self.as_str())
    }
    /// The name of the operation that installs a state: `take`, `drop`,
    /// `into_inner` and `ignore_drop` for the four states that they leave
    /// behind, and `get_and_reset` for the empty state.
    pub open spec fn spec_operation(self) -> Seq<char> {
        match self {
            StateManuallyDropData::Empty => "get_and_reset"@,
            StateManuallyDropData::TakeModeTrig => "take"@,
            StateManuallyDropData::DropModeTrig => "drop"@,
            StateManuallyDropData::IntoInnerModeTrig => "into_inner"@,
            StateManuallyDropData::IgnoreTrigWhenDrop => "ignore_drop"@,
        }
    }

    /// The name that a read goes by in a diagnostic.
    pub open spec fn spec_deref_operation() -> Seq<char> {
        "deref"@
    }

    /// The report of a violation: it names the operation that was attempted,
    /// the state that the operation expects, which is the empty one, and the
    /// state `self` that it found.
    pub open spec fn spec_violation_message(self, operation: Seq<char>) -> Seq<char> {
        "Undefined behavior when using ManuallyDrop::"@ + operation
            + ", instead of the expected state "@ + StateManuallyDropData::Empty.spec_name()
            + ", the current state: "@ + self.spec_name() + "."@
    }

    /// The diagnostic of the operation that was to install `new_state` and
    /// found the value already taken, released, unwrapped or set aside, in
    /// the state `self`.
    pub open spec fn spec_combo_replace_message(self, new_state: Self) -> Seq<char> {
        self.spec_violation_message(new_state.spec_operation())
    }

    /// The diagnostic of a read that found the value in the state `self`.
    pub open spec fn spec_deref_message(self) -> Seq<char> {
        self.spec_violation_message(Self::spec_deref_operation())
    }

    /// The diagnostic of a wrapper that went away in the state `self`, which
    /// is the empty one, when `exp_str` had been expected of its owner.
    pub open spec fn spec_expected_message(self, exp_str: Seq<char>) -> Seq<char> {
        "Undefined behavior when using ManuallyDrop ("@ + exp_str + "), state should not be "@
            + StateManuallyDropData::Empty.spec_name() + ", current state is "@ + self.spec_name()
            + "."@
    }

    /// The name of the operation that installs a state.
    pub fn operation(&self) -> (name: &'static str)
        ensures
            name@ == self.spec_operation(),
    {
        match self {
            StateManuallyDropData::Empty => "get_and_reset",
            StateManuallyDropData::TakeModeTrig => "take",
            StateManuallyDropData::DropModeTrig => "drop",
            StateManuallyDropData::IntoInnerModeTrig => "into_inner",
            StateManuallyDropData::IgnoreTrigWhenDrop => "ignore_drop",
        }
    }

    /// The report of a violation: it names the operation that was attempted,
    /// the state that the operation expects, which is the empty one, and the
    /// state `self` that it found.
    pub fn violation_message(self, operation: &str) -> (message: String)
        ensures
            message@ == self.spec_violation_message(operation@),
    {
        let mut message = String::from_str("Undefined behavior when using ManuallyDrop::");
        message.append(operation);
        message.append(", instead of the expected state ");
        message.append(StateManuallyDropData::Empty.as_str());
        message.append(", the current state: ");
        message.append(self.as_str());
        message.append(".");
        message
    }

    /// The diagnostic of the operation that was to install `new_state` and
    /// found the value already taken, released, unwrapped or set aside, in
    /// the state `self`.
    pub fn combo_replace_message(self, new_state: Self) -> (message: String)
        ensures
            message@ == self.spec_combo_replace_message(new_state),
    {
        self.violation_message(new_state.operation())
    }

    /// The diagnostic of a read that found the value in the state `self`.
    pub fn deref_message(self) -> (message: String)
        ensures
            message@ == self.spec_deref_message(),
    {
        self.violation_message("deref")
    }

    /// The diagnostic of a wrapper that went away in the state `self`, which
    /// is the empty one, when `exp_str` had been expected of its owner.
    pub fn expected_message(self, exp_str: &str) -> (message: String)
        ensures
            message@ == self.spec_expected_message(exp_str@),
    {
        let mut message = String::from_str("Undefined behavior when using ManuallyDrop (");
        message.append(exp_str);
        message.append("), state should not be ");
        message.append(StateManuallyDropData::Empty.as_str());
        message.append(", current state is ");
        message.append(self.as_str());
        message.append(".");
        message
    }
}

impl From<u8> for StateManuallyDropData {
    fn from(a: u8) -> (state: Self) {
        StateManuallyDropData::from_or_empty(a)
    }
}

impl vstd::std_specs::convert::FromSpecImpl<u8> for StateManuallyDropData {
    open spec fn obeys_from_spec() -> bool {
        true
    }

    open spec fn from_spec(a: u8) -> Self {
        StateManuallyDropData::spec_from_or_empty(a)
    }
}

impl Default for StateManuallyDropData {
    fn default() -> (state: Self)
        ensures
            state == StateManuallyDropData::Empty,
    {
        Self::empty()
    }
}

/// The lifecycle state that a wrapper keeps next to its value.
///
/// It is kept as a byte, and the byte always stands for a state. Whoever
/// holds the wrapper exclusively holds its state too; a state leaves `Empty`
/// once, and comes back only by `get_and_reset`.
#[derive(Debug)]
pub struct StateManuallyDrop {
    state: u8,
}

impl View for StateManuallyDrop {
    type V = StateManuallyDropData;

    closed spec fn view(&self) -> StateManuallyDropData {
        StateManuallyDropData::spec_from_or_empty(self.state)
    }
}

impl StateManuallyDrop {
    /// The byte that is kept stands for a state.
    #[verifier::type_invariant]
    spec fn wf(&self) -> bool {
        StateManuallyDropData::spec_is_valid_byte(self.state)
    }

    /// Whether a transition to `new_state` may turn the state `pre` into
    /// `post` and the trigger `before` into `after`, and end in `outcome`:
    /// the new state is installed in any case, and the trigger is fired
    /// exactly where the state was not empty, with a diagnostic that names
    /// the operation, the empty state that it expects and the state found.
    pub open spec fn spec_replace<Trig: TrigManuallyDrop>(
        pre: StateManuallyDropData,
        new_state: StateManuallyDropData,
        post: StateManuallyDropData,
        before: Trig,
        after: Trig,
        outcome: ControlOutcome,
    ) -> bool {
        &&& post == new_state
        &&& crate::trig::spec_trig_if(
            pre.spec_is_next_trig(),
            before,
            pre.spec_combo_replace_message(new_state),
            after,
            outcome,
        )
    }

    /// Whether a check for a readable value in the state `state` may turn
    /// the trigger `before` into `after` and end in `outcome`: the trigger
    /// is fired exactly where the state is not empty.
    pub open spec fn spec_deref<Trig: TrigManuallyDrop>(
        state: StateManuallyDropData,
        before: Trig,
        after: Trig,
        outcome: ControlOutcome,
    ) -> bool {
        crate::trig::spec_trig_if(
            state.spec_is_next_trig(),
            before,
            state.spec_deref_message(),
            after,
            outcome,
        )
    }

    /// Whether the check of a wrapper that goes away in the state `state`
    /// may turn the trigger `before` into `after` and end in `outcome`: the
    /// trigger is fired exactly where the state is still empty.
    pub open spec fn spec_if_empty<Trig: TrigManuallyDrop>(
        state: StateManuallyDropData,
        exp_str: Seq<char>,
        before: Trig,
        after: Trig,
        outcome: ControlOutcome,
    ) -> bool {
        crate::trig::spec_trig_if(
            state.spec_is_empty(),
            before,
            state.spec_expected_message(exp_str),
            after,
            outcome,
        )
    }

    /// Create default state.
    pub fn empty() -> (state: Self)
        ensures
            state@ == StateManuallyDropData::Empty,
    {
        StateManuallyDrop { state: StateManuallyDropData::empty().into() }
    }

    /// Whether the current state is like a new unused object.
    pub fn is_empty(&self) -> (empty: bool)
        ensures
            empty == self@.spec_is_empty(),
    {
        self.read().is_empty()
    }

    /// Getting the status byte of the current ManuallyDrop.
    fn read_byte(&self) -> (byte: u8)
        ensures
            byte == self@.spec_byte(),
            StateManuallyDropData::spec_is_valid_byte(byte),
    {
        proof {
            use_type_invariant(self);
        }
        self.state
    }

    /// Getting the status of the current ManuallyDrop.
    pub fn read(&self) -> (state: StateManuallyDropData)
        ensures
            state == self@,
    {
        let byte = self.read_byte();
        StateManuallyDropData::unchecked_from(byte)
    }

    /// Quick substitution of the state of the current ManuallyDrop; the
    /// state before is returned.
    fn force_write(&mut self, a: StateManuallyDropData) -> (old_state: StateManuallyDropData)
        ensures
            old_state == old(self)@,
            final(self)@ == a,
    {
        let byte = self.read_byte();
        self.state = a.into();
        StateManuallyDropData::unchecked_from(byte)
    }

    /// Resets the ManuallyDrop state to the initial state and returns the
    /// state before. Nothing else makes a state empty again.
    pub fn get_and_reset(&mut self) -> (old_state: StateManuallyDropData)
        ensures
            old_state == old(self)@,
            final(self)@ == StateManuallyDropData::Empty,
    {
        self.force_write(StateManuallyDropData::Empty)
    }

    /// Replaces the state by `new_state`, and calls the trigger if the state
    /// was not empty: then two operations were applied that exclude each
    /// other. The new state stays installed in either case.
    fn safe_replace_mutstate<Trig: TrigManuallyDrop>(
        &mut self,
        trig: &mut Trig,
        new_state: StateManuallyDropData,
    ) -> (outcome: ControlOutcome)
        requires
            new_state.spec_is_next_trig(),
        ensures
            Self::spec_replace(
                old(self)@,
                new_state,
                final(self)@,
                *old(trig),
                *final(trig),
                outcome,
            ),
    {
        let old_state = self.force_write(new_state);

        if old_state.is_next_trig() {
            let message = old_state.combo_replace_message(new_state);
            trig.trig_next_invalid_beh(message.as_str())
        } else {
            ControlOutcome::Continues
        }
    }

    /// Change the ManuallyDrop state to that of a released value, or execute
    /// the trigger function if the current state was not empty.
    pub fn to_dropmode_or_trig<Trig: TrigManuallyDrop>(&mut self, trig: &mut Trig) -> (outcome:
        ControlOutcome)
        ensures
            Self::spec_replace(
                old(self)@,
                StateManuallyDropData::DropModeTrig,
                final(self)@,
                *old(trig),
                *final(trig),
                outcome,
            ),
    {
        self.safe_replace_mutstate(trig, StateManuallyDropData::DropModeTrig)
    }

    /// Change the state of ManuallyDrop to that of a value that was moved
    /// out, or execute the trigger function if the current state was not
    /// empty.
    pub fn to_takemode_or_trig<Trig: TrigManuallyDrop>(&mut self, trig: &mut Trig) -> (outcome:
        ControlOutcome)
        ensures
            Self::spec_replace(
                old(self)@,
                StateManuallyDropData::TakeModeTrig,
                final(self)@,
                *old(trig),
                *final(trig),
                outcome,
            ),
    {
        self.safe_replace_mutstate(trig, StateManuallyDropData::TakeModeTrig)
    }

    /// Change the ManuallyDrop state to ignore freeing the value, or execute
    /// the trigger function if the current state was not empty.
    pub fn to_ignore_trig_when_drop<Trig: TrigManuallyDrop>(&mut self, trig: &mut Trig) -> (outcome:
        ControlOutcome)
        ensures
            Self::spec_replace(
                old(self)@,
                StateManuallyDropData::IgnoreTrigWhenDrop,
                final(self)@,
                *old(trig),
                *final(trig),
                outcome,
            ),
    {
        self.safe_replace_mutstate(trig, StateManuallyDropData::IgnoreTrigWhenDrop)
    }

    /// Change the state of ManuallyDrop to that of an unwrapped value, or
    /// execute the trigger function if the current state was not empty.
    pub fn to_intoinnermode_or_trig<Trig: TrigManuallyDrop>(&mut self, trig: &mut Trig) -> (outcome:
        ControlOutcome)
        ensures
            Self::spec_replace(
                old(self)@,
                StateManuallyDropData::IntoInnerModeTrig,
                final(self)@,
                *old(trig),
                *final(trig),
                outcome,
            ),
    {
        self.safe_replace_mutstate(trig, StateManuallyDropData::IntoInnerModeTrig)
    }

    /// Check the state of ManuallyDrop for a readable state, or execute the
    /// trigger function if the current state was not empty. The state stays
    /// as it is.
    pub fn deref_or_trig<Trig: TrigManuallyDrop>(&self, trig: &mut Trig) -> (outcome: ControlOutcome)
        ensures
            Self::spec_deref(self@, *old(trig), *final(trig), outcome),
    {
        let a_state = self.read();

        if a_state.is_next_trig() {
            let message = a_state.deref_message();
            trig.trig_next_invalid_beh(message.as_str())
        } else {
            ControlOutcome::Continues
        }
    }

    /// Check if the ManuallyDrop state is empty; if it is, run `fn_trig`
    /// and then execute the trigger function, with a diagnostic that holds
    /// `exp_str`. In every other state neither is called.
    pub fn if_empty_then_run_trigfn<Trig: TrigManuallyDrop, F: FnOnce()>(
        &self,
        trig: &mut Trig,
        exp_str: &'static str,
        fn_trig: F,
    ) -> (outcome: ControlOutcome)
        requires
            self@.spec_is_empty() ==> call_requires(fn_trig, ()),
        ensures
            self@.spec_is_empty() ==> call_ensures(fn_trig, (), ()),
            Self::spec_if_empty(self@, exp_str@, *old(trig), *final(trig), outcome),
    {
        let a_state = self.read();

        if a_state.is_empty() {
            fn_trig();

            let message = a_state.expected_message(exp_str);
            trig.trig_next_invalid_beh(message.as_str())
        } else {
            ControlOutcome::Continues
        }
    }

    /// Determining if a trigger should be executed.
    pub fn is_next_trig(&self) -> (next_trig: bool)
        ensures
            next_trig == self@.spec_is_next_trig(),
    {
        self.read().is_next_trig()
    }

    /// The name of the current state.
    pub fn to_string(&self) -> (name: String)
        ensures
            name@ == self@.spec_name(),
    {
        self.read().to_string()
    }
}

impl Clone for StateManuallyDrop {
    fn clone(&self) -> (state: Self)
        ensures
            state@ == self@,
    {
        StateManuallyDrop { state: self.read_byte() }
    }
}

impl Default for StateManuallyDrop {
    fn default() -> (state: Self)
        ensures
            state@ == StateManuallyDropData::Empty,
    {
        StateManuallyDrop::empty()
    }
}

} // verus!
