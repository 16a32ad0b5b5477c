//! A safe version of the insecure manual control of freeing memory.

use std::marker::PhantomData;
use std::mem::ManuallyDrop;
use std::ops::Deref;
use vstd::prelude::*;
use crate::beh::manually_drop_deref_mut;
use crate::beh::ManuallyDropView;
use crate::beh::Owed;
use crate::state::StateManuallyDrop;
use crate::state::StateManuallyDropData;
use crate::trig::ControlOutcome;
use crate::trig::TrigManuallyDrop;

verus! {

/// A safe version of the insecure manual control of freeing memory.
///
/// It holds a value that is never released by itself, and the lifecycle
/// state of that value. Every operation consults the state first and hands
/// a misuse to a trigger of the kind `Trig`.
#[derive(Debug)]
pub struct SafeManuallyDrop<T, Trig: TrigManuallyDrop> {
    state: StateManuallyDrop,
    _pp: PhantomData<Trig>,
    value: ManuallyDrop<T>,
}

impl<T, Trig: TrigManuallyDrop> View for SafeManuallyDrop<T, Trig> {
    type V = ManuallyDropView<T>;

    closed spec fn view(&self) -> ManuallyDropView<T> {
        ManuallyDropView { state: Some(self.state@), value: self.value@ }
    }
}

impl<T, Trig: TrigManuallyDrop> SafeManuallyDrop<T, Trig> {
    /// Wrap a value to be manually dropped.
    pub fn new(value: T) -> (slot: Self)
        ensures
            slot@.state == Some(StateManuallyDropData::Empty),
            slot@.value == value,
    {
        let value = ManuallyDrop::new(value);

        Self::from_std(value)
    }

    /// Wrap a value that is already kept from being released by itself.
    pub fn from_std(value: ManuallyDrop<T>) -> (slot: Self)
        ensures
            slot@.state == Some(StateManuallyDropData::Empty),
            slot@.value == value@,
    {
        SafeManuallyDrop { value, state: StateManuallyDrop::empty(), _pp: PhantomData }
    }

    /// Manually drops the contained value: checks, and tells the caller to
    /// release the value in place.
    ///
    /// The release is owed whenever the caller may go on, also where the
    /// value was released or moved out before and the trigger let that pass.
    pub fn drop(slot: &mut SafeManuallyDrop<T, Trig>, trig: &mut Trig) -> (result: (
        ControlOutcome,
        Owed,
    ))
        ensures
            crate::beh::spec_drop(
                old(slot)@,
                final(slot)@,
                *old(trig),
                *final(trig),
                result.0,
                result.1,
            ),
    {
        let outcome = slot.state.to_dropmode_or_trig(trig);
        if outcome.is_diverges() {
            return (outcome, Owed::Nothing);
        }
        (outcome, Owed::Release)
    }

    /// Takes the value from the ManuallyDrop container out: checks, and
    /// tells the caller to move the value out.
    ///
    /// The move is owed whenever the caller may go on, also where the value
    /// was released or moved out before and the trigger let that pass.
    pub fn take(slot: &mut SafeManuallyDrop<T, Trig>, trig: &mut Trig) -> (result: (
        ControlOutcome,
        Owed,
    ))
        ensures
            crate::beh::spec_take(
                old(slot)@,
                final(slot)@,
                *old(trig),
                *final(trig),
                result.0,
                result.1,
            ),
    {
        let outcome = slot.state.to_takemode_or_trig(trig);
        if outcome.is_diverges() {
            return (outcome, Owed::Nothing);
        }
        (outcome, Owed::Take)
    }

    /// Extracts the value from the ManuallyDrop container.
    ///
    /// The value is handed out whenever the caller may go on.
    pub fn into_inner(slot: SafeManuallyDrop<T, Trig>, trig: &mut Trig) -> (result: (
        ControlOutcome,
        Option<T>,
    ))
        ensures
            crate::beh::spec_into_inner(slot@, *old(trig), *final(trig), result.0, result.1),
    {
        let (outcome, value) = Self::into_core_inner(slot, trig);
        match value {
            Some(value) => (outcome, Some(ManuallyDrop::into_inner(value))),
            None => (outcome, None),
        }
    }

    /// Extracts the value from the ManuallyDrop container, still kept from
    /// being released by itself.
    pub fn into_core_inner(slot: SafeManuallyDrop<T, Trig>, trig: &mut Trig) -> (result: (
        ControlOutcome,
        Option<ManuallyDrop<T>>,
    ))
        ensures
            crate::beh::spec_into_inner(
                slot@,
                *old(trig),
                *final(trig),
                result.0,
                match result.1 {
                    Some(value) => Some(value@),
                    None => None,
                },
            ),
    {
        let mut slot = slot;
        let outcome = slot.state.to_intoinnermode_or_trig(trig);
        if outcome.is_diverges() {
            return (outcome, None);
        }
        (outcome, Some(slot.value))
    }

    /// Forgets value (similar to core::mem::forget): it is wrapped, set
    /// aside, and never released. This never calls the trigger.
    pub fn forget(value: T, trig: &mut Trig)
        ensures
            *final(trig) == *old(trig),
    {
        let mut sself = Self::new(value);

        let _outcome = sself.ignore_drop(trig);
    }

    /// Get reference to value.
    ///
    /// The reference is handed out whenever the caller may go on, also
    /// where the value was released or moved out before and the trigger let
    /// that pass: what it leads to is then the caller's risk.
    pub fn as_value(&self, trig: &mut Trig) -> (result: (ControlOutcome, Option<&T>))
        ensures
            crate::beh::spec_as_value(
                self@,
                *old(trig),
                *final(trig),
                result.0,
                match result.1 {
                    Some(value) => Some(*value),
                    None => None,
                },
            ),
    {
        let outcome = self.state.deref_or_trig(trig);
        if outcome.is_diverges() {
            return (outcome, None);
        }
        (outcome, Some(self.force_as_value()))
    }

    /// Get a mutable reference to a value.
    ///
    /// The reference is handed out whenever the caller may go on. What is
    /// written through it is what the wrapper holds afterwards.
    pub fn as_mut_value(&mut self, trig: &mut Trig) -> (result: (ControlOutcome, Option<&mut T>))
        ensures
            crate::beh::spec_as_value(
                old(self)@,
                *old(trig),
                *final(trig),
                result.0,
                match result.1 {
                    Some(value) => Some(*value),
                    None => None,
                },
            ),
            final(self)@.state == old(self)@.state,
            final(self)@.value == match result.1 {
                Some(value) => *final(value),
                None => old(self)@.value,
            },
    {
        let outcome = self.state.deref_or_trig(trig);
        if outcome.is_diverges() {
            return (outcome, None);
        }
        (outcome, Some(self.force_as_mut_value()))
    }

    /// Note that the safe ManuallyDrop checks to see if the value is freed
    /// when the safe ManuallyDrop struct dies. This sets the value aside: it
    /// is neither released by hand nor when the wrapper goes away.
    pub fn ignore_drop(&mut self, trig: &mut Trig) -> (outcome: ControlOutcome)
        ensures
            crate::beh::spec_ignore_drop(
                old(self)@,
                final(self)@,
                *old(trig),
                *final(trig),
                outcome,
            ),
    {
        self.state.to_ignore_trig_when_drop(trig)
    }

    /// What is to happen when the wrapper goes away: if its state is still
    /// empty, `fn_trig` is run, which is to release the value, and then the
    /// trigger is called, because the owner was expected to release the
    /// value by hand. In every other state neither is called.
    pub fn auto_drop<F: FnOnce()>(&mut self, trig: &mut Trig, fn_trig: F) -> (outcome:
        ControlOutcome)
        requires
            crate::beh::spec_auto_drop_releases(old(self)@) ==> call_requires(fn_trig, ()),
        ensures
            crate::beh::spec_auto_drop_releases(old(self)@) ==> call_ensures(fn_trig, (), ()),
            crate::beh::spec_auto_drop(
                old(self)@,
                final(self)@,
                *old(trig),
                *final(trig),
                outcome,
            ),
    {
        self.state.if_empty_then_run_trigfn(trig, "expected ManuallyDrop::drop(&mut value)", fn_trig)
    }

    /// The wrapped value as the standard library keeps it. No check is
    /// made.
    pub fn as_unsafestd_manuallydrop(&self) -> (value: &ManuallyDrop<T>)
        ensures
            value@ == self@.value,
    {
        &self.value
    }

    /// The wrapped value as the standard library keeps it, to be written,
    /// released or moved out by the caller. No check is made.
    pub fn as_mut_unsafestd_manuallydrop(&mut self) -> (value: &mut ManuallyDrop<T>)
        ensures
            value@ == old(self)@.value,
            final(self)@.state == old(self)@.state,
            final(self)@.value == final(value)@,
    {
        &mut self.value
    }

    /// Is ManuallyDrop a wrapper that keeps something beside the value, or
    /// is it nothing but the value. This wrapper keeps a state beside the
    /// value, so the answer is no.
    pub fn is_repr_transparent(&self) -> (transparent: bool)
        ensures
            !transparent,
            transparent == self@.state.is_none(),
    {
        false
    }

    /// Get current state.
    pub fn get_state(&self) -> (state: Option<StateManuallyDropData>)
        ensures
            state == self@.state,
            state.is_some(),
    {
        Some(self.state.read())
    }

    /// Whether the state is empty, so that the value can still be worked
    /// with. `Some(false)` means that the value has already been converted
    /// by some method, and further work with the value will cause an
    /// undefined behavior trigger.
    pub fn is_empty_state(&self) -> (empty: Option<bool>)
        ensures
            empty == crate::beh::spec_is_empty_state(self@),
            empty.is_some(),
    {
        Some(self.state.is_empty())
    }

    /// Resets the ManuallyDrop state to the empty state and returns the
    /// previous state. The value is left as it is.
    pub fn get_state_and_reset(&mut self) -> (state: Option<StateManuallyDropData>)
        ensures
            state == old(self)@.state,
            state.is_some(),
            final(self)@.state == Some(StateManuallyDropData::Empty),
            final(self)@.value == old(self)@.value,
    {
        Some(self.state.get_and_reset())
    }

    /// Checking if a trigger that defines undefined behavior will fire.
    /// `false` means the state is empty and you can work with the value in
    /// the future; `true` means the value has already been converted by some
    /// method.
    pub fn is_next_trig(&self) -> (next_trig: bool)
        ensures
            next_trig == crate::beh::spec_is_next_trig(self@),
            self@.state.is_some(),
    {
        self.state.is_next_trig()
    }

    /// Checking if a trigger that defines undefined behavior will fire, in a
    /// form that the wrapper without a state can answer too.
    pub fn is_next_trig_optionresult(&self) -> (next_trig: Option<bool>)
        ensures
            next_trig == crate::beh::spec_is_next_trig_optionresult(self@),
            next_trig.is_some(),
    {
        Some(self.state.is_next_trig())
    }

    /// Get reference to value. Always unprotected!
    pub fn force_as_value(&self) -> (value: &T)
        ensures
            *value == self@.value,
    {
        self.value.deref()
    }

    /// Get a mutable reference to a value. Always unprotected!
    pub fn force_as_mut_value(&mut self) -> (value: &mut T)
        ensures
            *value == old(self)@.value,
            final(self)@.state == old(self)@.state,
            final(self)@.value == *final(value),
    {
        manually_drop_deref_mut(&mut self.value)
    }

    /// Safe or insecure version of ManuallyDrop.
    pub fn is_safe_type(&self) -> (safe: bool)
        ensures
            safe,
            self@.state.is_some(),
    {
        true
    }
}

} // verus!
