//! The insecure implementation of manual memory management.

use std::marker::PhantomData;
use std::mem::ManuallyDrop;
use std::ops::Deref;
use vstd::prelude::*;
use crate::beh::manually_drop_deref_mut;
use crate::beh::ManuallyDropView;
use crate::beh::Owed;
use crate::state::StateManuallyDropData;
use crate::trig::ControlOutcome;
use crate::trig::TrigManuallyDrop;

verus! {

/// Insecure standard implementation of manual memory management.
///
/// It holds the value and nothing else. It has the operations of the
/// checked wrapper, but keeps no state, makes no check and never calls the
/// trigger: what is asked of it is owed every time.
#[derive(Debug)]
pub struct UnsafeManuallyDrop<T, Trig: TrigManuallyDrop> {
    _pp: PhantomData<Trig>,
    value: ManuallyDrop<T>,
}

impl<T, Trig: TrigManuallyDrop> View for UnsafeManuallyDrop<T, Trig> {
    type V = ManuallyDropView<T>;

    closed spec fn view(&self) -> ManuallyDropView<T> {
        ManuallyDropView { state: None, value: self.value@ }
    }
}

impl<T, Trig: TrigManuallyDrop> UnsafeManuallyDrop<T, Trig> {
    /// Wrap a value to be manually dropped.
    pub fn new(value: T) -> (slot: Self)
        ensures
            slot@.state.is_none(),
            slot@.value == value,
    {
        let value = ManuallyDrop::new(value);

        Self::from_std(value)
    }

    /// Wrap a value that is already kept from being released by itself.
    pub fn from_std(value: ManuallyDrop<T>) -> (slot: Self)
        ensures
            slot@.state.is_none(),
            slot@.value == value@,
    {
        UnsafeManuallyDrop { value, _pp: PhantomData }
    }

    /// Manually drops the contained value: tells the caller to release the
    /// value in place, every time.
    pub fn drop(slot: &mut UnsafeManuallyDrop<T, Trig>, trig: &mut Trig) -> (result: (
        ControlOutcome,
        Owed,
    ))
        ensures
            crate::beh::spec_drop(
                old(slot)@,
                final(slot)@,
                *old(trig),
                *final(trig),
                result.0,
                result.1,
            ),
    {
        (ControlOutcome::Continues, Owed::Release)
    }

    /// Takes the value from the ManuallyDrop container out: tells the
    /// caller to move the value out, every time.
    pub fn take(slot: &mut UnsafeManuallyDrop<T, Trig>, trig: &mut Trig) -> (result: (
        ControlOutcome,
        Owed,
    ))
        ensures
            crate::beh::spec_take(
                old(slot)@,
                final(slot)@,
                *old(trig),
                *final(trig),
                result.0,
                result.1,
            ),
    {
        (ControlOutcome::Continues, Owed::Take)
    }

    /// Extracts the value from the ManuallyDrop container.
    pub fn into_inner(slot: UnsafeManuallyDrop<T, Trig>, trig: &mut Trig) -> (result: (
        ControlOutcome,
        Option<T>,
    ))
        ensures
            crate::beh::spec_into_inner(slot@, *old(trig), *final(trig), result.0, result.1),
    {
        let (outcome, value) = Self::into_core_inner(slot, trig);
        match value {
            Some(value) => (outcome, Some(ManuallyDrop::into_inner(value))),
            None => (outcome, None),
        }
    }

    /// Extracts the value from the ManuallyDrop container, still kept from
    /// being released by itself.
    pub fn into_core_inner(slot: UnsafeManuallyDrop<T, Trig>, trig: &mut Trig) -> (result: (
        ControlOutcome,
        Option<ManuallyDrop<T>>,
    ))
        ensures
            crate::beh::spec_into_inner(
                slot@,
                *old(trig),
                *final(trig),
                result.0,
                match result.1 {
                    Some(value) => Some(value@),
                    None => None,
                },
            ),
    {
        (ControlOutcome::Continues, Some(slot.value))
    }

    /// Forgets value (similar to core::mem::forget): it is wrapped and never
    /// released.
    pub fn forget(value: T, trig: &mut Trig)
        ensures
            *final(trig) == *old(trig),
    {
        let mut sself = Self::new(value);

        let _outcome = sself.ignore_drop(trig);
    }

    /// Get reference to value.
    pub fn as_value(&self, trig: &mut Trig) -> (result: (ControlOutcome, Option<&T>))
        ensures
            crate::beh::spec_as_value(
                self@,
                *old(trig),
                *final(trig),
                result.0,
                match result.1 {
                    Some(value) => Some(*value),
                    None => None,
                },
            ),
    {
        (ControlOutcome::Continues, Some(self.force_as_value()))
    }

    /// Get a mutable reference to a value. What is written through the
    /// reference is what the wrapper holds afterwards.
    pub fn as_mut_value(&mut self, trig: &mut Trig) -> (result: (ControlOutcome, Option<&mut T>))
        ensures
            crate::beh::spec_as_value(
                old(self)@,
                *old(trig),
                *final(trig),
                result.0,
                match result.1 {
                    Some(value) => Some(*value),
                    None => None,
                },
            ),
            final(self)@.state == old(self)@.state,
            final(self)@.value == match result.1 {
                Some(value) => *final(value),
                None => old(self)@.value,
            },
    {
        (ControlOutcome::Continues, Some(self.force_as_mut_value()))
    }

    /// Not supported in the insecure version: it does nothing.
    pub fn ignore_drop(&mut self, trig: &mut Trig) -> (outcome: ControlOutcome)
        ensures
            crate::beh::spec_ignore_drop(
                old(self)@,
                final(self)@,
                *old(trig),
                *final(trig),
                outcome,
            ),
    {
        ControlOutcome::Continues
    }

    /// What is to happen when the wrapper goes away: nothing. `fn_trig` is
    /// not run, and the value is left as it is, released or not.
    pub fn auto_drop<F: FnOnce()>(&mut self, trig: &mut Trig, fn_trig: F) -> (outcome:
        ControlOutcome)
        requires
            crate::beh::spec_auto_drop_releases(old(self)@) ==> call_requires(fn_trig, ()),
        ensures
            crate::beh::spec_auto_drop_releases(old(self)@) ==> call_ensures(fn_trig, (), ()),
            crate::beh::spec_auto_drop(
                old(self)@,
                final(self)@,
                *old(trig),
                *final(trig),
                outcome,
            ),
    {
        ControlOutcome::Continues
    }

    /// The wrapped value as the standard library keeps it.
    pub fn as_unsafestd_manuallydrop(&self) -> (value: &ManuallyDrop<T>)
        ensures
            value@ == self@.value,
    {
        &self.value
    }

    /// The wrapped value as the standard library keeps it, to be written,
    /// released or moved out by the caller.
    pub fn as_mut_unsafestd_manuallydrop(&mut self) -> (value: &mut ManuallyDrop<T>)
        ensures
            value@ == old(self)@.value,
            final(self)@.state == old(self)@.state,
            final(self)@.value == final(value)@,
    {
        &mut self.value
    }

    /// Is ManuallyDrop a wrapper that keeps something beside the value, or
    /// is it nothing but the value. This wrapper keeps nothing beside the
    /// value, so the answer is yes.
    pub fn is_repr_transparent(&self) -> (transparent: bool)
        ensures
            transparent,
            transparent == self@.state.is_none(),
    {
        true
    }

    /// Get current state. Not supported in the insecure version: always
    /// `None`.
    pub fn get_state(&self) -> (state: Option<StateManuallyDropData>)
        ensures
            state == self@.state,
            state.is_none(),
    {
        None
    }

    /// Whether the state is empty. Not supported in the insecure version:
    /// always `None`.
    pub fn is_empty_state(&self) -> (empty: Option<bool>)
        ensures
            empty == crate::beh::spec_is_empty_state(self@),
            empty.is_none(),
    {
        None
    }

    /// Resets the ManuallyDrop state. Not supported in the insecure version:
    /// nothing changes and `None` is returned.
    pub fn get_state_and_reset(&mut self) -> (state: Option<StateManuallyDropData>)
        ensures
            state == old(self)@.state,
            state.is_none(),
            final(self)@ == old(self)@,
    {
        None
    }

    /// Checking if a trigger that defines undefined behavior will fire. Not
    /// supported in the insecure version: always `false`.
    pub fn is_next_trig(&self) -> (next_trig: bool)
        ensures
            next_trig == crate::beh::spec_is_next_trig(self@),
            !next_trig,
            self@.state.is_none(),
    {
        false
    }

    /// Checking if a trigger that defines undefined behavior will fire. Not
    /// supported in the insecure version: always `None`.
    pub fn is_next_trig_optionresult(&self) -> (next_trig: Option<bool>)
        ensures
            next_trig == crate::beh::spec_is_next_trig_optionresult(self@),
            next_trig.is_none(),
    {
        None
    }

    /// Get reference to value. Always unprotected!
    pub fn force_as_value(&self) -> (value: &T)
        ensures
            *value == self@.value,
    {
        self.value.deref()
    }

    /// Get a mutable reference to a value. Always unprotected!
    pub fn force_as_mut_value(&mut self) -> (value: &mut T)
        ensures
            *value == old(self)@.value,
            final(self)@.state == old(self)@.state,
            final(self)@.value == *final(value),
    {
        manually_drop_deref_mut(&mut self.value)
    }

    /// Safe or insecure version of ManuallyDrop.
    pub fn is_safe_type(&self) -> (safe: bool)
        ensures
            !safe,
            self@.state.is_none(),
    {
        false
    }
}

} // verus!
