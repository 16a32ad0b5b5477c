//! Safe and insecure implementations of manual memory management.
//!
//! The wrappers of this module share one set of operations. What an
//! operation does is stated once, over what a wrapper holds: the lifecycle
//! state, which only a checked wrapper keeps, and the value.
//!
//! A wrapper keeps its value from being released by itself, and it cannot
//! release the value in place or move it out from behind a reference
//! either: both are the caller's to do, on the caller's own account. So
//! `drop` and `take` check, and tell the caller what is owed to the value.
//! Whenever the caller may go on, the operation is owed: a misuse that the
//! trigger lets pass is carried out like a valid use.

use std::mem::ManuallyDrop;
use std::ops::DerefMut;
use vstd::prelude::*;
use crate::state::StateManuallyDrop;
use crate::state::StateManuallyDropData;
use crate::trig::ControlOutcome;
use crate::trig::TrigManuallyDrop;

pub mod auto;
pub mod safe;
pub mod unchecked;

verus! {

/// What a wrapper holds.
pub struct ManuallyDropView<T> {
    /// The lifecycle state; `None` in a wrapper that keeps none.
    pub state: Option<StateManuallyDropData>,
    /// The value as it was wrapped or last written. A wrapper does not see
    /// what its caller did to the value by hand.
    pub value: T,
}

/// What the caller owes to the value of a wrapper once an operation has
/// checked. The caller gets at the value by `as_mut_unsafestd_manuallydrop`.
#[derive(Debug, Clone, Copy, PartialEq, Eq, Structural, Hash)]
pub enum Owed {
    /// Nothing: the trigger asked the caller not to go on.
    Nothing,
    /// The value is to be released where it is.
    Release,
    /// The value is to be moved out.
    Take,
}

/// `DerefMut::deref_mut` of `core::mem::ManuallyDrop`, of which vstd says
/// nothing. The reference that comes back leads to the wrapped value, and
/// what is written through it is what the wrapper holds afterwards. This is
/// taken on trust: the body is not verified.
#[verifier::external_body]
pub(crate) fn manually_drop_deref_mut<T>(value: &mut ManuallyDrop<T>) -> (inner: &mut T)
    ensures
        *inner == old(value)@,
        final(value)@ == *final(inner),
{
    value.deref_mut()
}

/// Whether the next operation on a wrapper calls the trigger: never in a
/// wrapper that keeps no state.
pub open spec fn spec_is_next_trig<T>(view: ManuallyDropView<T>) -> bool {
    match view.state {
        Some(state) => state.spec_is_next_trig(),
        None => false,
    }
}

/// Whether the next operation on a wrapper calls the trigger, where the
/// wrapper can tell.
pub open spec fn spec_is_next_trig_optionresult<T>(view: ManuallyDropView<T>) -> Option<bool> {
    match view.state {
        Some(state) => Some(state.spec_is_next_trig()),
        None => None,
    }
}

/// Whether the state of a wrapper is empty, where the wrapper keeps one.
pub open spec fn spec_is_empty_state<T>(view: ManuallyDropView<T>) -> Option<bool> {
    match view.state {
        Some(state) => Some(state.spec_is_empty()),
        None => None,
    }
}

/// The words that name what the owner of a wrapper is expected to have done
/// before the wrapper goes away.
pub open spec fn spec_expected_drop() -> Seq<char> {
    "expected ManuallyDrop::drop(&mut value)"@
}

/// The state after an operation that installs `new_state`: a wrapper
/// without a state stays without one.
pub open spec fn spec_state_after(
    state: Option<StateManuallyDropData>,
    new_state: StateManuallyDropData,
) -> Option<StateManuallyDropData> {
    match state {
        Some(_) => Some(new_state),
        None => None,
    }
}

/// How the operation that installs `new_state` uses the trigger: a checked
/// wrapper fires it exactly where its state was not empty, with the report
/// that names the operation and the state found; an unchecked one never.
pub open spec fn spec_replace_trig<Trig: TrigManuallyDrop>(
    new_state: StateManuallyDropData,
    state: Option<StateManuallyDropData>,
    before: Trig,
    after: Trig,
    outcome: ControlOutcome,
) -> bool {
    match state {
        Some(state) => crate::trig::spec_trig_if(
            state.spec_is_next_trig(),
            before,
            state.spec_combo_replace_message(new_state),
            after,
            outcome,
        ),
        None => after == before && outcome == ControlOutcome::Continues,
    }
}

/// What every operation that takes, releases, unwraps or sets aside the
/// value does to the state and to the trigger: `new_state` is installed, and
/// the trigger is fired exactly where a checked wrapper was not empty.
pub open spec fn spec_replace<Trig: TrigManuallyDrop>(
    new_state: StateManuallyDropData,
    pre: Option<StateManuallyDropData>,
    post: Option<StateManuallyDropData>,
    before: Trig,
    after: Trig,
    outcome: ControlOutcome,
) -> bool {
    &&& post == spec_state_after(pre, new_state)
    &&& spec_replace_trig(new_state, pre, before, after, outcome)
}

/// How a read uses the trigger: a checked wrapper fires it exactly where its
/// state is not empty, an unchecked one never.
pub open spec fn spec_deref_trig<Trig: TrigManuallyDrop>(
    state: Option<StateManuallyDropData>,
    before: Trig,
    after: Trig,
    outcome: ControlOutcome,
) -> bool {
    match state {
        Some(state) => StateManuallyDrop::spec_deref(state, before, after, outcome),
        None => after == before && outcome == ControlOutcome::Continues,
    }
}

/// What is owed to the value after a check that ended in `outcome`, by an
/// operation that is to do `operation` to it: the operation, unless the
/// trigger asked the caller not to go on. Whether the check found a misuse
/// makes no difference.
pub open spec fn spec_owed(outcome: ControlOutcome, operation: Owed) -> Owed {
    if outcome.spec_is_diverges() {
        Owed::Nothing
    } else {
        operation
    }
}

/// What is handed out after a check that ended in `outcome`, by an
/// operation that is to hand out `value`: the value, unless the trigger
/// asked the caller not to go on.
pub open spec fn spec_handed_out<V>(outcome: ControlOutcome, value: V) -> Option<V> {
    if outcome.spec_is_diverges() {
        None
    } else {
        Some(value)
    }
}

/// What `drop` does. The state becomes `DropModeTrig`; unless the trigger
/// asks the caller to stop, the value is to be released.
pub open spec fn spec_drop<T, Trig: TrigManuallyDrop>(
    pre: ManuallyDropView<T>,
    post: ManuallyDropView<T>,
    before: Trig,
    after: Trig,
    outcome: ControlOutcome,
    owed: Owed,
) -> bool {
    &&& spec_replace(
        StateManuallyDropData::DropModeTrig,
        pre.state,
        post.state,
        before,
        after,
        outcome,
    )
    &&& post.value == pre.value
    &&& owed == spec_owed(outcome, Owed::Release)
}

/// What `take` does. The state becomes `TakeModeTrig`; unless the trigger
/// asks the caller to stop, the value is to be moved out.
pub open spec fn spec_take<T, Trig: TrigManuallyDrop>(
    pre: ManuallyDropView<T>,
    post: ManuallyDropView<T>,
    before: Trig,
    after: Trig,
    outcome: ControlOutcome,
    owed: Owed,
) -> bool {
    &&& spec_replace(
        StateManuallyDropData::TakeModeTrig,
        pre.state,
        post.state,
        before,
        after,
        outcome,
    )
    &&& post.value == pre.value
    &&& owed == spec_owed(outcome, Owed::Take)
}

/// What `into_inner` does to a wrapper that it uses up. Unless the trigger
/// asks the caller to stop, the value is handed out.
pub open spec fn spec_into_inner<T, Trig: TrigManuallyDrop>(
    pre: ManuallyDropView<T>,
    before: Trig,
    after: Trig,
    outcome: ControlOutcome,
    value: Option<T>,
) -> bool {
    &&& spec_replace(
        StateManuallyDropData::IntoInnerModeTrig,
        pre.state,
        spec_state_after(pre.state, StateManuallyDropData::IntoInnerModeTrig),
        before,
        after,
        outcome,
    )
    &&& value == spec_handed_out(outcome, pre.value)
}

/// What `ignore_drop` does. The state becomes `IgnoreTrigWhenDrop`, and the
/// value stays where it is.
pub open spec fn spec_ignore_drop<T, Trig: TrigManuallyDrop>(
    pre: ManuallyDropView<T>,
    post: ManuallyDropView<T>,
    before: Trig,
    after: Trig,
    outcome: ControlOutcome,
) -> bool {
    &&& spec_replace(
        StateManuallyDropData::IgnoreTrigWhenDrop,
        pre.state,
        post.state,
        before,
        after,
        outcome,
    )
    &&& post.value == pre.value
}

/// What a read hands out. Unless the trigger asks the caller to stop, it is
/// the value.
pub open spec fn spec_as_value<T, Trig: TrigManuallyDrop>(
    view: ManuallyDropView<T>,
    before: Trig,
    after: Trig,
    outcome: ControlOutcome,
    value: Option<T>,
) -> bool {
    &&& spec_deref_trig(view.state, before, after, outcome)
    &&& value == spec_handed_out(outcome, view.value)
}

/// Whether a wrapper that goes away releases its value: a checked one whose
/// state is still empty does.
pub open spec fn spec_auto_drop_releases<T>(view: ManuallyDropView<T>) -> bool {
    view.state == Some(StateManuallyDropData::Empty)
}

/// What happens to the trigger when a wrapper goes away. A checked wrapper
/// whose state is still empty fires the trigger, once its value is
/// released: its owner did neither release the value nor say what else
/// became of it. In every other state, and in an unchecked wrapper, nothing
/// happens.
pub open spec fn spec_auto_drop<T, Trig: TrigManuallyDrop>(
    pre: ManuallyDropView<T>,
    post: ManuallyDropView<T>,
    before: Trig,
    after: Trig,
    outcome: ControlOutcome,
) -> bool {
    &&& post == pre
    &&& match pre.state {
        Some(state) => StateManuallyDrop::spec_if_empty(
            state,
            spec_expected_drop(),
            before,
            after,
            outcome,
        ),
        None => after == before && outcome == ControlOutcome::Continues,
    }
}

/// Whether `post`, `after`, `outcome`, `owed` and `value` are a way for
/// some operation of a wrapper to end that began with `pre` and `before`.
pub open spec fn spec_any_operation<T, Trig: TrigManuallyDrop>(
    pre: ManuallyDropView<T>,
    post: ManuallyDropView<T>,
    before: Trig,
    after: Trig,
    outcome: ControlOutcome,
    owed: Owed,
    value: Option<T>,
) -> bool {
    ||| spec_drop(pre, post, before, after, outcome, owed)
    ||| spec_take(pre, post, before, after, outcome, owed)
    ||| spec_into_inner(pre, before, after, outcome, value)
    ||| spec_ignore_drop(pre, post, before, after, outcome)
    ||| spec_as_value(pre, before, after, outcome, value)
    ||| spec_auto_drop(pre, post, before, after, outcome)
}

/// An operation whose caller may go on is carried out, whether it was a
/// misuse or not: `drop` owes the release, `take` owes the move, and
/// `into_inner` and the reads hand out the value.
pub proof fn lemma_continues_owes_the_operation<T, Trig: TrigManuallyDrop>(
    pre: ManuallyDropView<T>,
    post: ManuallyDropView<T>,
    before: Trig,
    after: Trig,
    owed: Owed,
    value: Option<T>,
)
    ensures
        spec_drop(pre, post, before, after, ControlOutcome::Continues, owed) ==> owed
            == Owed::Release,
        spec_take(pre, post, before, after, ControlOutcome::Continues, owed) ==> owed == Owed::Take,
        spec_into_inner(pre, before, after, ControlOutcome::Continues, value) ==> value == Some(
            pre.value,
        ),
        spec_as_value(pre, before, after, ControlOutcome::Continues, value) ==> value == Some(
            pre.value,
        ),
{
}

/// Of the operations that take, release, unwrap or set aside the value of
/// a checked wrapper, one is valid: the first on a fresh wrapper does not
/// touch the trigger, and whichever comes second fires it once, with the
/// report that names the second operation and the state that the first left
/// behind.
pub proof fn lemma_single_valid_transition<Trig: TrigManuallyDrop>(
    first: StateManuallyDropData,
    second: StateManuallyDropData,
    mid: Option<StateManuallyDropData>,
    end: Option<StateManuallyDropData>,
    fresh_trig: Trig,
    mid_trig: Trig,
    end_trig: Trig,
    first_outcome: ControlOutcome,
    second_outcome: ControlOutcome,
)
    requires
        first.spec_is_next_trig(),
        spec_replace(
            first,
            Some(StateManuallyDropData::Empty),
            mid,
            fresh_trig,
            mid_trig,
            first_outcome,
        ),
        spec_replace(second, mid, end, mid_trig, end_trig, second_outcome),
    ensures
        mid_trig == fresh_trig,
        first_outcome == ControlOutcome::Continues,
        mid == Some(first),
        mid_trig.spec_trig(first.spec_combo_replace_message(second), &end_trig, second_outcome),
        end == Some(second),
{
}

/// However many operations take, release, unwrap or set aside the value of
/// a fresh checked wrapper, one after the other, only the first is valid:
/// it does not touch the trigger, and each of the others fires it once,
/// with the report that names it and the state that the one before
/// installed.
///
/// Operation `i` installs `new_states[i]`, finds the state `states[i]` and
/// the trigger `trigs[i]`, and leaves `states[i + 1]` and `trigs[i + 1]`.
pub proof fn lemma_only_first_transition_is_valid<Trig: TrigManuallyDrop>(
    new_states: Seq<StateManuallyDropData>,
    states: Seq<Option<StateManuallyDropData>>,
    trigs: Seq<Trig>,
    outcomes: Seq<ControlOutcome>,
    i: int,
)
    requires
        states.len() == new_states.len() + 1,
        trigs.len() == new_states.len() + 1,
        outcomes.len() == new_states.len(),
        states[0] == Some(StateManuallyDropData::Empty),
        forall|k: int| 0 <= k < new_states.len() ==> (#[trigger] new_states[k]).spec_is_next_trig(),
        forall|k: int|
            0 <= k < new_states.len() ==> spec_replace(
                new_states[k],
                states[k],
                #[trigger] states[k + 1],
                trigs[k],
                trigs[k + 1],
                outcomes[k],
            ),
        0 <= i < new_states.len(),
    ensures
        states[i + 1] == Some(new_states[i]),
        i == 0 ==> trigs[1] == trigs[0] && outcomes[0] == ControlOutcome::Continues,
        i > 0 ==> trigs[i].spec_trig(
            new_states[i - 1].spec_combo_replace_message(new_states[i]),
            &trigs[i + 1],
            outcomes[i],
        ),
    decreases i,
{
    assert(spec_replace(
        new_states[i],
        states[i],
        states[i + 1],
        trigs[i],
        trigs[i + 1],
        outcomes[i],
    ));
    if i > 0 {
        lemma_only_first_transition_is_valid(new_states, states, trigs, outcomes, i - 1);
        assert(new_states[i - 1].spec_is_next_trig());
    }
}

/// A state that is not empty is never made empty by an operation that
/// takes, releases, unwraps or sets aside the value.
pub proof fn lemma_replace_is_one_way<Trig: TrigManuallyDrop>(
    new_state: StateManuallyDropData,
    pre: Option<StateManuallyDropData>,
    post: Option<StateManuallyDropData>,
    before: Trig,
    after: Trig,
    outcome: ControlOutcome,
)
    requires
        new_state.spec_is_next_trig(),
        spec_replace(new_state, pre, post, before, after, outcome),
    ensures
        post != Some(StateManuallyDropData::Empty),
        post.is_some() == pre.is_some(),
{
}

/// A read of a fresh checked wrapper does not touch the trigger. Once the
/// value was taken, released, unwrapped or set aside, every read fires the
/// trigger, with the report that names the read and the state that was
/// installed.
pub proof fn lemma_read_gating<Trig: TrigManuallyDrop>(
    new_state: StateManuallyDropData,
    pre: StateManuallyDropData,
    post: Option<StateManuallyDropData>,
    fresh_trig: Trig,
    fresh_after: Trig,
    fresh_outcome: ControlOutcome,
    before: Trig,
    mid_trig: Trig,
    after: Trig,
    replace_outcome: ControlOutcome,
    read_outcome: ControlOutcome,
)
    requires
        new_state.spec_is_next_trig(),
        spec_deref_trig(
            Some(StateManuallyDropData::Empty),
            fresh_trig,
            fresh_after,
            fresh_outcome,
        ),
        spec_replace(new_state, Some(pre), post, before, mid_trig, replace_outcome),
        spec_deref_trig(post, mid_trig, after, read_outcome),
    ensures
        fresh_after == fresh_trig,
        fresh_outcome == ControlOutcome::Continues,
        mid_trig.spec_trig(new_state.spec_deref_message(), &after, read_outcome),
{
}

/// A fresh wrapper whose value was set aside goes away without a word: the
/// trigger is as it was before the two operations, and the value is not
/// released.
pub proof fn lemma_ignore_drop_then_auto_drop<T, Trig: TrigManuallyDrop>(
    fresh: ManuallyDropView<T>,
    mid: ManuallyDropView<T>,
    end: ManuallyDropView<T>,
    fresh_trig: Trig,
    mid_trig: Trig,
    end_trig: Trig,
    ignore_outcome: ControlOutcome,
    drop_outcome: ControlOutcome,
)
    requires
        fresh.state == Some(StateManuallyDropData::Empty) || fresh.state.is_none(),
        spec_ignore_drop(fresh, mid, fresh_trig, mid_trig, ignore_outcome),
        spec_auto_drop(mid, end, mid_trig, end_trig, drop_outcome),
    ensures
        end_trig == fresh_trig,
        ignore_outcome == ControlOutcome::Continues,
        drop_outcome == ControlOutcome::Continues,
        !spec_auto_drop_releases(mid),
        end.value == fresh.value,
{
}

/// A fresh checked wrapper that goes away as it is releases its value and
/// fires the trigger.
pub proof fn lemma_auto_drop_of_fresh<T, Trig: TrigManuallyDrop>(
    fresh: ManuallyDropView<T>,
    end: ManuallyDropView<T>,
    before: Trig,
    after: Trig,
    outcome: ControlOutcome,
)
    requires
        fresh.state == Some(StateManuallyDropData::Empty),
        spec_auto_drop(fresh, end, before, after, outcome),
    ensures
        spec_auto_drop_releases(fresh),
        before.spec_trig(
            StateManuallyDropData::Empty.spec_expected_message(spec_expected_drop()),
            &after,
            outcome,
        ),
{
}

/// A wrapper that keeps no state never touches the trigger and never stops
/// its caller, whatever is asked of it.
pub proof fn lemma_unchecked_never_fires<T, Trig: TrigManuallyDrop>(
    pre: ManuallyDropView<T>,
    post: ManuallyDropView<T>,
    before: Trig,
    after: Trig,
    outcome: ControlOutcome,
    owed: Owed,
    value: Option<T>,
)
    requires
        pre.state.is_none(),
        spec_any_operation(pre, post, before, after, outcome, owed, value),
    ensures
        after == before,
        outcome == ControlOutcome::Continues,
{
}

/// A wrapper that keeps no state does to the value what is asked of it,
/// every time: `drop` owes the release, `take` owes the move, `into_inner`
/// and the reads hand the value out, and nothing else changes.
pub proof fn lemma_unchecked_passes_through<T, Trig: TrigManuallyDrop>(
    pre: ManuallyDropView<T>,
    post: ManuallyDropView<T>,
    before: Trig,
    after: Trig,
    outcome: ControlOutcome,
    owed: Owed,
    value: Option<T>,
)
    requires
        pre.state.is_none(),
    ensures
        spec_drop(pre, post, before, after, outcome, owed) ==> post == pre && owed
            == Owed::Release,
        spec_take(pre, post, before, after, outcome, owed) ==> post == pre && owed == Owed::Take,
        spec_into_inner(pre, before, after, outcome, value) ==> value == Some(pre.value),
        spec_ignore_drop(pre, post, before, after, outcome) ==> post == pre,
        spec_as_value(pre, before, after, outcome, value) ==> value == Some(pre.value),
        spec_auto_drop(pre, post, before, after, outcome) ==> post == pre
            && !spec_auto_drop_releases(pre),
{
}

} // verus!
