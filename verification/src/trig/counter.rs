//! The trigger that counts.
//!
//! It lets every misuse pass, as the unguarded primitive would, and counts
//! how often it was called.

use vstd::prelude::*;
use crate::trig::ControlOutcome;
use crate::trig::TrigManuallyDrop;

verus! {

/// On undefined behavior the operation goes on, and the counter of this
/// trigger is advanced by one.
#[derive(Debug)]
pub struct CounterTrigManuallyDrop {
    count: u32,
}

/// The count that follows `count`: one more, and zero after the largest.
pub open spec fn spec_next_count(count: u32) -> u32 {
    if count == u32::MAX {
        0
    } else {
        (count + 1) as u32
    }
}

/// The count after a check: the next one where it found a violation.
pub open spec fn spec_count_if(violation: bool, count: u32) -> u32 {
    if violation {
        spec_next_count(count)
    } else {
        count
    }
}

/// The count that `n` firings make of `start`.
pub open spec fn spec_count_after(start: u32, n: nat) -> u32
    decreases n,
{
    if n == 0 {
        start
    } else {
        spec_next_count(spec_count_after(start, (n - 1) as nat))
    }
}

impl View for CounterTrigManuallyDrop {
    type V = u32;

    /// The number of times the trigger was called.
    closed spec fn view(&self) -> u32 {
        self.count
    }
}

impl CounterTrigManuallyDrop {
    /// A counter that was never called.
    pub fn new() -> (counter: Self)
        ensures
            counter@ == 0,
    {
        CounterTrigManuallyDrop { count: 0 }
    }

    /// Get the number of times the undefined behavior was triggered.
    pub fn get_count_trig_events(&self) -> (count: u32)
        ensures
            count == self@,
    {
        self.count
    }
}

impl Default for CounterTrigManuallyDrop {
    fn default() -> (counter: Self)
        ensures
            counter@ == 0,
    {
        CounterTrigManuallyDrop::new()
    }
}

impl TrigManuallyDrop for CounterTrigManuallyDrop {
    open spec fn spec_trig(&self, a: Seq<char>, after: &Self, outcome: ControlOutcome) -> bool {
        outcome == ControlOutcome::Continues && after@ == spec_next_count(self@)
    }

    fn trig_next_invalid_beh(&mut self, a: &str) -> (outcome: ControlOutcome) {
        self::trig_next_invalid_beh(self);
        ControlOutcome::Continues
    }
}

/// Manually add one to the counter.
pub fn trig_next_invalid_beh(counter: &mut CounterTrigManuallyDrop)
    ensures
        final(counter)@ == spec_next_count(old(counter)@),
{
    counter.count = counter.count.wrapping_add(1);
}

/// Get the number of times the undefined behavior was triggered.
pub fn get_count_trig_events(counter: &CounterTrigManuallyDrop) -> (count: u32)
    ensures
        count == counter@,
{
    counter.get_count_trig_events()
}

/// Any number of firings advances the count by that number, up to the
/// largest count, after which it starts again at zero.
pub proof fn lemma_count_after(start: u32, n: nat)
    ensures
        spec_count_after(start, n) == (start + n) % 0x1_0000_0000,
        start + n <= u32::MAX ==> spec_count_after(start, n) == start + n,
    decreases n,
{
    if n > 0 {
        lemma_count_after(start, (n - 1) as nat);
    }
}

/// How many of the checks in `violations` found a violation.
pub open spec fn spec_violations(violations: Seq<bool>) -> nat
    decreases violations.len(),
{
    if violations.len() == 0 {
        0
    } else {
        spec_violations(violations.drop_last()) + if violations.last() {
            1nat
        } else {
            0nat
        }
    }
}

/// The counter is as good as its word. Over any run of checks that share
/// one counter, each of which fires it exactly where it finds a violation,
/// the count advances by the number of violations, and no check stops its
/// caller: the operations that were asked for are all carried out.
///
/// `counters[i]` is the counter before check `i`, `counters[i + 1]` the
/// counter after it. The count is exact as long as it does not pass the
/// largest count.
pub proof fn lemma_counter_fidelity(
    counters: Seq<CounterTrigManuallyDrop>,
    violations: Seq<bool>,
    diagnostics: Seq<Seq<char>>,
    outcomes: Seq<ControlOutcome>,
)
    requires
        counters.len() == violations.len() + 1,
        diagnostics.len() == violations.len(),
        outcomes.len() == violations.len(),
        forall|i: int|
            0 <= i < violations.len() ==> crate::trig::spec_trig_if(
                violations[i],
                counters[i],
                diagnostics[i],
                #[trigger] counters[i + 1],
                outcomes[i],
            ),
    ensures
        counters.last()@ == spec_count_after(counters[0]@, spec_violations(violations)),
        counters[0]@ + spec_violations(violations) <= u32::MAX ==> counters.last()@
            == counters[0]@ + spec_violations(violations),
        forall|i: int| 0 <= i < outcomes.len() ==> outcomes[i] == ControlOutcome::Continues,
    decreases violations.len(),
{
    if violations.len() > 0 {
        let n = violations.len() as int - 1;
        lemma_counter_fidelity(
            counters.drop_last(),
            violations.drop_last(),
            diagnostics.drop_last(),
            outcomes.drop_last(),
        );
        assert(counters.drop_last().last() == counters[n]);
        assert(counters.drop_last()[0] == counters[0]);
        assert(crate::trig::spec_trig_if(
            violations[n],
            counters[n],
            diagnostics[n],
            counters[n + 1],
            outcomes[n],
        ));
        assert forall|i: int| 0 <= i < outcomes.len() implies outcomes[i]
            == ControlOutcome::Continues by {
            if i < n {
                assert(outcomes.drop_last()[i] == outcomes[i]);
            }
        }
    }
    lemma_count_after(counters[0]@, spec_violations(violations));
}

/// A wrapper that is guarded by the counter does what is asked of it even
/// where that is a misuse: no operation is stopped, so `drop` owes the
/// release and `take` the move on every call, and `into_inner` and the reads
/// hand out the value. The counter is advanced by one exactly where the
/// operation was a misuse.
pub proof fn lemma_counter_lets_pass<T>(
    pre: crate::beh::ManuallyDropView<T>,
    post: crate::beh::ManuallyDropView<T>,
    before: CounterTrigManuallyDrop,
    after: CounterTrigManuallyDrop,
    outcome: ControlOutcome,
    owed: crate::beh::Owed,
    value: Option<T>,
)
    ensures
        crate::beh::spec_any_operation(pre, post, before, after, outcome, owed, value) ==> outcome
            == ControlOutcome::Continues,
        crate::beh::spec_drop(pre, post, before, after, outcome, owed) ==> owed
            == crate::beh::Owed::Release && after@ == spec_count_if(
            crate::beh::spec_is_next_trig(pre),
            before@,
        ),
        crate::beh::spec_take(pre, post, before, after, outcome, owed) ==> owed
            == crate::beh::Owed::Take && after@ == spec_count_if(
            crate::beh::spec_is_next_trig(pre),
            before@,
        ),
        crate::beh::spec_into_inner(pre, before, after, outcome, value) ==> value == Some(
            pre.value,
        ) && after@ == spec_count_if(crate::beh::spec_is_next_trig(pre), before@),
        crate::beh::spec_ignore_drop(pre, post, before, after, outcome) ==> post.value
            == pre.value && after@ == spec_count_if(crate::beh::spec_is_next_trig(pre), before@),
        crate::beh::spec_as_value(pre, before, after, outcome, value) ==> value == Some(pre.value)
            && after@ == spec_count_if(crate::beh::spec_is_next_trig(pre), before@),
{
}

/// A protected version of SafeManuallyDrop with a function to count the
/// amount of undefined behavior of the ManuallyDrop logic. The undefined
/// behavior itself is let pass, as the unprotected wrapper lets it pass.
pub type AlwaysSafeCounterManuallyDrop<T> = crate::beh::safe::SafeManuallyDrop<
    T,
    CounterTrigManuallyDrop,
>;

/// A secure or non-secure version of SafeManuallyDrop with a function to
/// count the undefined behavior of the ManuallyDrop logic.
pub type AutoSafeCounterManuallyDrop<T> = crate::beh::auto::AutoSafeManuallyDrop<
    T,
    CounterTrigManuallyDrop,
>;

impl AutoSafeCounterManuallyDrop<()> {
    /// Get the number of times the undefined behavior was triggered.
    pub fn get_count_trig_events(counter: &CounterTrigManuallyDrop) -> (count: u32)
        ensures
            count == counter@,
    {
        self::get_count_trig_events(counter)
    }
}

impl AlwaysSafeCounterManuallyDrop<()> {
    /// Get the number of times the undefined behavior was triggered.
    pub fn get_count_trig_events(counter: &CounterTrigManuallyDrop) -> (count: u32)
        ensures
            count == counter@,
    {
        self::get_count_trig_events(counter)
    }
}

} // verus!
