//! Depending on the build flags, a protected version of ManuallyDrop or an
//! unprotected version of ManuallyDrop.

use std::mem::ManuallyDrop;
use vstd::prelude::*;
use crate::beh::safe::SafeManuallyDrop;
use crate::beh::unchecked::UnsafeManuallyDrop;
use crate::beh::ManuallyDropView;
use crate::beh::Owed;
use crate::flags::BuildFlags;
use crate::state::StateManuallyDropData;
use crate::trig::ControlOutcome;
use crate::trig::TrigManuallyDrop;

verus! {

/// Depending on the build flags, a protected version of ManuallyDrop or an
/// unprotected version of ManuallyDrop.
///
/// Code that works with this wrapper need not know which of the two it
/// holds: both have the same operations.
#[derive(Debug)]
pub enum AutoSafeManuallyDrop<T, Trig: TrigManuallyDrop> {
    /// The wrapper checks its use.
    Safe(SafeManuallyDrop<T, Trig>),
    /// The wrapper makes no check.
    Unsafe(UnsafeManuallyDrop<T, Trig>),
}

impl<T, Trig: TrigManuallyDrop> View for AutoSafeManuallyDrop<T, Trig> {
    type V = ManuallyDropView<T>;

    open spec fn view(&self) -> ManuallyDropView<T> {
        match self {
            AutoSafeManuallyDrop::Safe(slot) => slot@,
            AutoSafeManuallyDrop::Unsafe(slot) => slot@,
        }
    }
}

impl<T, Trig: TrigManuallyDrop> AutoSafeManuallyDrop<T, Trig> {
    /// Depending on the build flags, a protected version of ManuallyDrop or
    /// an unprotected version of ManuallyDrop: whether the wrappers made for
    /// a build with these flags check their use.
    pub fn is_safe_mode(flags: &BuildFlags) -> (safe: bool)
        ensures
            safe == (flags.always_safe_manuallydrop || (flags.always_check_in_case_debug_assertions
                && flags.debug_assertions)),
    {
        flags.is_safe_mode()
    }

    /// Wrap a value to be manually dropped, in the wrapper that a build
    /// with these flags asks for.
    pub fn new(value: T, flags: &BuildFlags) -> (slot: Self)
        ensures
            (slot is Safe) == flags.spec_is_safe_mode(),
            slot@.state == if flags.spec_is_safe_mode() {
                Some(StateManuallyDropData::Empty)
            } else {
                None
            },
            slot@.value == value,
    {
        if Self::is_safe_mode(flags) {
            AutoSafeManuallyDrop::Safe(SafeManuallyDrop::new(value))
        } else {
            AutoSafeManuallyDrop::Unsafe(UnsafeManuallyDrop::new(value))
        }
    }

    /// Wrap a value that is already kept from being released by itself, in
    /// the wrapper that a build with these flags asks for.
    pub fn from_std(value: ManuallyDrop<T>, flags: &BuildFlags) -> (slot: Self)
        ensures
            (slot is Safe) == flags.spec_is_safe_mode(),
            slot@.state == if flags.spec_is_safe_mode() {
                Some(StateManuallyDropData::Empty)
            } else {
                None
            },
            slot@.value == value@,
    {
        if Self::is_safe_mode(flags) {
            AutoSafeManuallyDrop::Safe(SafeManuallyDrop::from_std(value))
        } else {
            AutoSafeManuallyDrop::Unsafe(UnsafeManuallyDrop::from_std(value))
        }
    }

    /// Forgets value (similar to core::mem::forget): it is wrapped, set
    /// aside, and never released. This never calls the trigger.
    pub fn forget(value: T, flags: &BuildFlags, trig: &mut Trig)
        ensures
            *final(trig) == *old(trig),
    {
        let mut sself = Self::new(value, flags);

        let _outcome = sself.ignore_drop(trig);
    }

    /// Manually drops the contained value: checks where the wrapper does,
    /// and tells the caller to release the value in place.
    pub fn drop(slot: &mut AutoSafeManuallyDrop<T, Trig>, trig: &mut Trig) -> (result: (
        ControlOutcome,
        Owed,
    ))
        ensures
            crate::beh::spec_drop(
                old(slot)@,
                final(slot)@,
                *old(trig),
                *final(trig),
                result.0,
                result.1,
            ),
            (*final(slot) is Safe) == (*old(slot) is Safe),
    {
        match slot {
            AutoSafeManuallyDrop::Safe(slot) => SafeManuallyDrop::drop(slot, trig),
            AutoSafeManuallyDrop::Unsafe(slot) => UnsafeManuallyDrop::drop(slot, trig),
        }
    }

    /// Takes the value from the ManuallyDrop container out: checks where
    /// the wrapper does, and tells the caller to move the value out.
    pub fn take(slot: &mut AutoSafeManuallyDrop<T, Trig>, trig: &mut Trig) -> (result: (
        ControlOutcome,
        Owed,
    ))
        ensures
            crate::beh::spec_take(
                old(slot)@,
                final(slot)@,
                *old(trig),
                *final(trig),
                result.0,
                result.1,
            ),
            (*final(slot) is Safe) == (*old(slot) is Safe),
    {
        match slot {
            AutoSafeManuallyDrop::Safe(slot) => SafeManuallyDrop::take(slot, trig),
            AutoSafeManuallyDrop::Unsafe(slot) => UnsafeManuallyDrop::take(slot, trig),
        }
    }

    /// Extracts the value from the ManuallyDrop container.
    pub fn into_inner(slot: AutoSafeManuallyDrop<T, Trig>, trig: &mut Trig) -> (result: (
        ControlOutcome,
        Option<T>,
    ))
        ensures
            crate::beh::spec_into_inner(slot@, *old(trig), *final(trig), result.0, result.1),
    {
        match slot {
            AutoSafeManuallyDrop::Safe(slot) => SafeManuallyDrop::into_inner(slot, trig),
            AutoSafeManuallyDrop::Unsafe(slot) => UnsafeManuallyDrop::into_inner(slot, trig),
        }
    }

    /// Extracts the value from the ManuallyDrop container, still kept from
    /// being released by itself.
    pub fn into_core_inner(slot: AutoSafeManuallyDrop<T, Trig>, trig: &mut Trig) -> (result: (
        ControlOutcome,
        Option<ManuallyDrop<T>>,
    ))
        ensures
            crate::beh::spec_into_inner(
                slot@,
                *old(trig),
                *final(trig),
                result.0,
                match result.1 {
                    Some(value) => Some(value@),
                    None => None,
                },
            ),
    {
        match slot {
            AutoSafeManuallyDrop::Safe(slot) => SafeManuallyDrop::into_core_inner(slot, trig),
            AutoSafeManuallyDrop::Unsafe(slot) => UnsafeManuallyDrop::into_core_inner(slot, trig),
        }
    }

    /// Get reference to value.
    pub fn as_value(&self, trig: &mut Trig) -> (result: (ControlOutcome, Option<&T>))
        ensures
            crate::beh::spec_as_value(
                self@,
                *old(trig),
                *final(trig),
                result.0,
                match result.1 {
                    Some(value) => Some(*value),
                    None => None,
                },
            ),
    {
        match self {
            AutoSafeManuallyDrop::Safe(slot) => slot.as_value(trig),
            AutoSafeManuallyDrop::Unsafe(slot) => slot.as_value(trig),
        }
    }

    /// Get a mutable reference to a value.
    pub fn as_mut_value(&mut self, trig: &mut Trig) -> (result: (ControlOutcome, Option<&mut T>))
        ensures
            crate::beh::spec_as_value(
                old(self)@,
                *old(trig),
                *final(trig),
                result.0,
                match result.1 {
                    Some(value) => Some(*value),
                    None => None,
                },
            ),
            final(self)@.state == old(self)@.state,
            final(self)@.value == match result.1 {
                Some(value) => *final(value),
                None => old(self)@.value,
            },
            (*final(self) is Safe) == (*old(self) is Safe),
    {
        match self {
            AutoSafeManuallyDrop::Safe(slot) => slot.as_mut_value(trig),
            AutoSafeManuallyDrop::Unsafe(slot) => slot.as_mut_value(trig),
        }
    }

    /// Sets the value aside: it is neither released by hand nor when the
    /// wrapper goes away.
    pub fn ignore_drop(&mut self, trig: &mut Trig) -> (outcome: ControlOutcome)
        ensures
            crate::beh::spec_ignore_drop(
                old(self)@,
                final(self)@,
                *old(trig),
                *final(trig),
                outcome,
            ),
            (*final(self) is Safe) == (*old(self) is Safe),
    {
        match self {
            AutoSafeManuallyDrop::Safe(slot) => slot.ignore_drop(trig),
            AutoSafeManuallyDrop::Unsafe(slot) => slot.ignore_drop(trig),
        }
    }

    /// What is to happen when the wrapper goes away: a checked wrapper
    /// whose state is still empty runs `fn_trig`, which is to release the
    /// value, and then calls the trigger.
    pub fn auto_drop<F: FnOnce()>(&mut self, trig: &mut Trig, fn_trig: F) -> (outcome:
        ControlOutcome)
        requires
            crate::beh::spec_auto_drop_releases(old(self)@) ==> call_requires(fn_trig, ()),
        ensures
            crate::beh::spec_auto_drop_releases(old(self)@) ==> call_ensures(fn_trig, (), ()),
            crate::beh::spec_auto_drop(
                old(self)@,
                final(self)@,
                *old(trig),
                *final(trig),
                outcome,
            ),
            (*final(self) is Safe) == (*old(self) is Safe),
    {
        match self {
            AutoSafeManuallyDrop::Safe(slot) => slot.auto_drop(trig, fn_trig),
            AutoSafeManuallyDrop::Unsafe(slot) => slot.auto_drop(trig, fn_trig),
        }
    }

    /// Get current state; `None` in the wrapper that makes no check.
    pub fn get_state(&self) -> (state: Option<StateManuallyDropData>)
        ensures
            state == self@.state,
            state.is_some() == (self is Safe),
    {
        match self {
            AutoSafeManuallyDrop::Safe(slot) => slot.get_state(),
            AutoSafeManuallyDrop::Unsafe(slot) => slot.get_state(),
        }
    }

    /// Whether the state is empty; `None` in the wrapper that makes no
    /// check.
    pub fn is_empty_state(&self) -> (empty: Option<bool>)
        ensures
            empty == crate::beh::spec_is_empty_state(self@),
    {
        match self {
            AutoSafeManuallyDrop::Safe(slot) => slot.is_empty_state(),
            AutoSafeManuallyDrop::Unsafe(slot) => slot.is_empty_state(),
        }
    }

    /// Resets the ManuallyDrop state to the empty state and returns the
    /// previous state. The value is left as it is. In the wrapper that makes
    /// no check nothing changes and `None` is returned.
    pub fn get_state_and_reset(&mut self) -> (state: Option<StateManuallyDropData>)
        ensures
            state == old(self)@.state,
            final(self)@.state == crate::beh::spec_state_after(
                old(self)@.state,
                StateManuallyDropData::Empty,
            ),
            final(self)@.value == old(self)@.value,
            (*final(self) is Safe) == (*old(self) is Safe),
    {
        match self {
            AutoSafeManuallyDrop::Safe(slot) => slot.get_state_and_reset(),
            AutoSafeManuallyDrop::Unsafe(slot) => slot.get_state_and_reset(),
        }
    }

    /// Checking if a trigger that defines undefined behavior will fire;
    /// `None` in the wrapper that makes no check.
    pub fn is_next_trig_optionresult(&self) -> (next_trig: Option<bool>)
        ensures
            next_trig == crate::beh::spec_is_next_trig_optionresult(self@),
    {
        match self {
            AutoSafeManuallyDrop::Safe(slot) => slot.is_next_trig_optionresult(),
            AutoSafeManuallyDrop::Unsafe(slot) => slot.is_next_trig_optionresult(),
        }
    }

    /// Get reference to value. Always unprotected!
    pub fn force_as_value(&self) -> (value: &T)
        ensures
            *value == self@.value,
    {
        match self {
            AutoSafeManuallyDrop::Safe(slot) => slot.force_as_value(),
            AutoSafeManuallyDrop::Unsafe(slot) => slot.force_as_value(),
        }
    }

    /// Get a mutable reference to a value. Always unprotected!
    pub fn force_as_mut_value(&mut self) -> (value: &mut T)
        ensures
            *value == old(self)@.value,
            final(self)@.state == old(self)@.state,
            final(self)@.value == *final(value),
            (*final(self) is Safe) == (*old(self) is Safe),
    {
        match self {
            AutoSafeManuallyDrop::Safe(slot) => slot.force_as_mut_value(),
            AutoSafeManuallyDrop::Unsafe(slot) => slot.force_as_mut_value(),
        }
    }

    /// The wrapped value as the standard library keeps it. No check is
    /// made.
    pub fn as_unsafestd_manuallydrop(&self) -> (value: &ManuallyDrop<T>)
        ensures
            value@ == self@.value,
    {
        match self {
            AutoSafeManuallyDrop::Safe(slot) => slot.as_unsafestd_manuallydrop(),
            AutoSafeManuallyDrop::Unsafe(slot) => slot.as_unsafestd_manuallydrop(),
        }
    }

    /// The wrapped value as the standard library keeps it, to be written,
    /// released or moved out by the caller. No check is made.
    pub fn as_mut_unsafestd_manuallydrop(&mut self) -> (value: &mut ManuallyDrop<T>)
        ensures
            value@ == old(self)@.value,
            final(self)@.state == old(self)@.state,
            final(self)@.value == final(value)@,
            (*final(self) is Safe) == (*old(self) is Safe),
    {
        match self {
            AutoSafeManuallyDrop::Safe(slot) => slot.as_mut_unsafestd_manuallydrop(),
            AutoSafeManuallyDrop::Unsafe(slot) => slot.as_mut_unsafestd_manuallydrop(),
        }
    }

    /// Is ManuallyDrop a wrapper that keeps something beside the value, or
    /// is it nothing but the value. The answer is that of the wrapper that
    /// is held: yes for the one that makes no check, no for the one that
    /// keeps a state.
    pub fn is_repr_transparent(&self) -> (transparent: bool)
        ensures
            transparent == !(self is Safe),
            transparent == self@.state.is_none(),
    {
        match self {
            AutoSafeManuallyDrop::Safe(slot) => slot.is_repr_transparent(),
            AutoSafeManuallyDrop::Unsafe(slot) => slot.is_repr_transparent(),
        }
    }

    /// Checking if a trigger that defines undefined behavior will fire;
    /// always `false` in the wrapper that makes no check.
    pub fn is_next_trig(&self) -> (next_trig: bool)
        ensures
            next_trig == crate::beh::spec_is_next_trig(self@),
    {
        match self {
            AutoSafeManuallyDrop::Safe(slot) => slot.is_next_trig(),
            AutoSafeManuallyDrop::Unsafe(slot) => slot.is_next_trig(),
        }
    }

    /// Safe or insecure version of ManuallyDrop.
    pub fn is_safe_type(&self) -> (safe: bool)
        ensures
            safe == (self is Safe),
            safe == self@.state.is_some(),
    {
        match self {
            AutoSafeManuallyDrop::Safe(slot) => slot.is_safe_type(),
            AutoSafeManuallyDrop::Unsafe(slot) => slot.is_safe_type(),
        }
    }
}

} // verus!
