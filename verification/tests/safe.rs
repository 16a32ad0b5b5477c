use safe_manually_drop::beh::Owed;
use safe_manually_drop::state::StateManuallyDropData;
use safe_manually_drop::trig::counter::CounterTrigManuallyDrop;
use safe_manually_drop::trig::empty_loop::EmptyLoopTrigManuallyDrop;
use safe_manually_drop::trig::hook::HookFnTrigManuallyDrop;
use safe_manually_drop::trig::panic_trig::PanicTrigManuallyDrop;
use safe_manually_drop::trig::ControlOutcome;
use safe_manually_drop::trig::TrigManuallyDrop;
use safe_manually_drop::AlwaysSafeCounterManuallyDrop;
use safe_manually_drop::AlwaysSafeEmptyLoopManuallyDrop;
use safe_manually_drop::AlwaysSafeHookManuallyDrop;
use safe_manually_drop::AlwaysSafeManuallyDrop;
use safe_manually_drop::AlwaysSafePanicManuallyDrop as PanicManuallyDrop;
use safe_manually_drop::AlwaysSafePanicManuallyDrop as SafeLibManuallyDrop;
use safe_manually_drop::UnsafeStdManuallyDrop;
use std::cell::Cell;
use std::cell::RefCell;
use std::rc::Rc;
use std::sync::atomic::AtomicU32;
use std::sync::atomic::Ordering;

/// Build test data
fn build_new_test_vec() -> Vec<String> {
    let mut vec = Vec::with_capacity(3);
    vec.push("test".into());
    vec.push("test2".into());
    vec.push("test3".into());

    vec
}

/// A value that counts how often it is released.
struct Released(Rc<Cell<u32>>);

impl Drop for Released {
    fn drop(&mut self) {
        self.0.set(self.0.get() + 1);
    }
}

/// Does to the value of a wrapper what an operation left owed, as the
/// caller of the wrapper is to do, by safe means: the value is swapped for
/// `stale`, which stands for what a release or a move leaves behind, and is
/// then released or handed back.
fn perform<T, Trig: TrigManuallyDrop>(
    slot: &mut AlwaysSafeManuallyDrop<T, Trig>,
    owed: Owed,
    stale: T,
) -> Option<T> {
    match owed {
        Owed::Nothing => {
            std::mem::forget(stale);
            None
        },
        Owed::Release => {
            drop(std::mem::replace(slot.force_as_mut_value(), stale));
            None
        },
        Owed::Take => Some(std::mem::replace(slot.force_as_mut_value(), stale)),
    }
}

/// The end of the scope of a wrapper whose value needs no release: the
/// check alone.
fn scope_end<T, Trig: TrigManuallyDrop>(
    mut slot: AlwaysSafeManuallyDrop<T, Trig>,
    trig: &mut Trig,
) -> ControlOutcome {
    slot.auto_drop(trig, || {})
}

/// PANIC METHOD #1
/// 1. COMBO DROP
fn test_combo_drop(data: Vec<String>) -> ControlOutcome {
    let mut trig = PanicTrigManuallyDrop::Panic;
    let mut control_drop = PanicManuallyDrop::new(data); // VALID
    let (outcome, _e) = control_drop.as_value(&mut trig); // VALID
    assert_eq!(outcome, ControlOutcome::Continues);

    let (outcome, owed) = PanicManuallyDrop::drop(&mut control_drop, &mut trig); // VALID
    assert_eq!((outcome, owed), (ControlOutcome::Continues, Owed::Release));
    perform(&mut control_drop, owed, Vec::new());

    assert!(control_drop.is_next_trig()); // VALID
                                          // <<-- PANIC
    let (outcome, owed) = PanicManuallyDrop::drop(&mut control_drop, &mut trig); // INVALID
    assert_eq!(owed, Owed::Nothing);
    outcome
}

/// PANIC METHOD #2
/// 1. DROP + READ
fn test_drop_and_read(data: Vec<String>) -> ControlOutcome {
    let mut trig = PanicTrigManuallyDrop::Panic;
    let mut control_drop = PanicManuallyDrop::new(data); // VALID
    assert_eq!(control_drop.as_value(&mut trig).0, ControlOutcome::Continues); // VALID
    assert_eq!(control_drop.as_value(&mut trig).0, ControlOutcome::Continues); // VALID
    let (outcome, owed) = PanicManuallyDrop::drop(&mut control_drop, &mut trig); // VALID
    assert_eq!(outcome, ControlOutcome::Continues);
    perform(&mut control_drop, owed, Vec::new());

    assert!(control_drop.is_next_trig()); // VALID
                                          // <<-- PANIC
    let (outcome, e) = control_drop.as_value(&mut trig); // INVALID
    assert!(e.is_none());
    outcome
}

/// PANIC METHOD #3
/// 1. READ + TAKE + READ
fn test_take_and_read(data: Vec<String>) -> ControlOutcome {
    let mut trig = PanicTrigManuallyDrop::Panic;
    let mut control_drop = PanicManuallyDrop::new(data); // VALID

    assert_eq!(control_drop.as_value(&mut trig).0, ControlOutcome::Continues); // VALID
    assert_eq!(control_drop.as_value(&mut trig).0, ControlOutcome::Continues); // VALID
    {
        let (outcome, owed) = PanicManuallyDrop::take(&mut control_drop, &mut trig); // VALID
        assert_eq!((outcome, owed), (ControlOutcome::Continues, Owed::Take));
        let data = perform(&mut control_drop, owed, Vec::new());
        assert_eq!(data, Some(build_new_test_vec())); // VALID
        drop(data); // VALID
    }
    assert!(control_drop.is_next_trig()); // VALID

    // <<-- PANIC
    control_drop.as_value(&mut trig).0 // INVALID
}

/// PANIC METHOD #4
/// 1. READ + TAKE + DROP
fn test_take_and_drop(data: Vec<String>) -> ControlOutcome {
    let mut trig = PanicTrigManuallyDrop::Panic;
    let mut control_drop = PanicManuallyDrop::new(data); // VALID

    assert_eq!(control_drop.as_value(&mut trig).0, ControlOutcome::Continues); // VALID
    assert_eq!(control_drop.as_value(&mut trig).0, ControlOutcome::Continues); // VALID
    {
        let (outcome, owed) = PanicManuallyDrop::take(&mut control_drop, &mut trig); // VALID
        assert_eq!(outcome, ControlOutcome::Continues);
        let data = perform(&mut control_drop, owed, Vec::new());
        assert_eq!(data, Some(build_new_test_vec())); // VALID
        drop(data); // VALID
    }
    assert!(control_drop.is_next_trig()); // VALID

    // <<-- PANIC
    let (outcome, owed) = PanicManuallyDrop::drop(&mut control_drop, &mut trig); // INVALID
    assert_eq!(owed, Owed::Nothing);
    outcome
}

/// PANIC METHOD #5
/// 1. READ + DROP + INTO_INNER
fn test_drop_and_into_inner(data: Vec<String>) -> ControlOutcome {
    let mut trig = PanicTrigManuallyDrop::Panic;
    let mut control_drop = PanicManuallyDrop::new(data); // VALID

    assert_eq!(control_drop.as_value(&mut trig).0, ControlOutcome::Continues); // VALID
    assert_eq!(control_drop.as_value(&mut trig).0, ControlOutcome::Continues); // VALID
    let (outcome, owed) = PanicManuallyDrop::drop(&mut control_drop, &mut trig); // VALID
    assert_eq!(outcome, ControlOutcome::Continues);
    perform(&mut control_drop, owed, Vec::new());
    assert!(control_drop.is_next_trig()); // VALID

    // <<-- PANIC
    let (outcome, data) = PanicManuallyDrop::into_inner(control_drop, &mut trig); // INVALID
    assert!(data.is_none());
    outcome
}

/// PANIC METHOD #5
/// 1. AutoPanic when drop
fn test_expmanualdrop(data: Vec<String>) -> ControlOutcome {
    let mut trig = PanicTrigManuallyDrop::Panic;
    let mut control_drop = PanicManuallyDrop::new(data); // VALID

    let (outcome, owed) = PanicManuallyDrop::drop(&mut control_drop, &mut trig); // VALID
    assert_eq!(outcome, ControlOutcome::Continues);
    perform(&mut control_drop, owed, Vec::new());
    assert!(control_drop.is_next_trig()); // VALID

    // <<-- PANIC
    control_drop.as_value(&mut trig).0 // INVALID
}

// IGNORE PANIC
fn test_expmanualdrop2_ignorepanic(data: Vec<String>) -> ControlOutcome {
    let mut trig = PanicTrigManuallyDrop::Panic;
    let mut control_drop = PanicManuallyDrop::new(data); // VALID

    let (outcome, owed) = PanicManuallyDrop::drop(&mut control_drop, &mut trig); // VALID
    assert_eq!(outcome, ControlOutcome::Continues);
    perform(&mut control_drop, owed, Vec::new());

    assert!(control_drop.is_next_trig()); // VALID

    scope_end(control_drop, &mut trig) // VALID
}

// IGNORE PANIC
fn test_expmanualdrop3_ignorepanic(data: Vec<String>) -> ControlOutcome {
    let mut trig = PanicTrigManuallyDrop::Panic;
    let mut control_drop = PanicManuallyDrop::new(data); // VALID

    let (outcome, owed) = PanicManuallyDrop::take(&mut control_drop, &mut trig); // VALID
    assert_eq!(outcome, ControlOutcome::Continues);
    let data = perform(&mut control_drop, owed, Vec::new());
    assert!(control_drop.is_next_trig()); // VALID

    //
    let outcome = scope_end(control_drop, &mut trig); // VALID
    drop(data); // VALID
    outcome
}

#[test]
fn test_panic_mode() {
    let arr_fn: &[(bool, fn(a: Vec<String>) -> ControlOutcome)] = &[
        (true, test_combo_drop as _),
        (true, test_drop_and_read as _),
        (true, test_take_and_read as _),
        (true, test_take_and_drop as _),
        (true, test_drop_and_into_inner as _),
        (true, test_expmanualdrop as _),
        (false, test_expmanualdrop2_ignorepanic as _),
        (false, test_expmanualdrop3_ignorepanic as _),
    ];

    let mut c_ignore_panic = 0;
    for (is_err, ..) in arr_fn.iter() {
        if !is_err {
            c_ignore_panic += 1;
        }
    }

    let mut panic_counter = 0;
    for (is_err, function) in arr_fn.iter() {
        let new_data = build_new_test_vec();

        let e = (function)(new_data);
        if e.is_diverges() {
            panic_counter += 1;
        }

        assert_eq!(&e.is_diverges(), is_err);
    }

    assert_eq!(panic_counter, arr_fn.len() - c_ignore_panic);
}

static TEST_COUNTER: AtomicU32 = AtomicU32::new(0);

struct Test;

impl Drop for Test {
    fn drop(&mut self) {
        TEST_COUNTER.fetch_add(1, Ordering::SeqCst);
    }
}

#[test]
fn test_counter_trig_manuallydrop() {
    let mut trig = CounterTrigManuallyDrop::new();
    let mut check_data = AlwaysSafeCounterManuallyDrop::new(Test);

    // combo drop
    let (outcome, owed) = AlwaysSafeCounterManuallyDrop::drop(&mut check_data, &mut trig);
    assert_eq!((outcome, owed), (ControlOutcome::Continues, Owed::Release));
    perform(&mut check_data, owed, Test);
    assert_eq!(AlwaysSafeCounterManuallyDrop::get_count_trig_events(&trig), 0);

    let (outcome, owed) = AlwaysSafeCounterManuallyDrop::drop(&mut check_data, &mut trig);
    assert_eq!((outcome, owed), (ControlOutcome::Continues, Owed::Release));
    perform(&mut check_data, owed, Test);
    assert_eq!(AlwaysSafeCounterManuallyDrop::get_count_trig_events(&trig), 1);

    let (outcome, owed) = AlwaysSafeCounterManuallyDrop::drop(&mut check_data, &mut trig);
    assert_eq!((outcome, owed), (ControlOutcome::Continues, Owed::Release));
    perform(&mut check_data, owed, Test);
    assert_eq!(AlwaysSafeCounterManuallyDrop::get_count_trig_events(&trig), 2);

    assert_eq!(
        TEST_COUNTER.load(Ordering::Relaxed),
        AlwaysSafeCounterManuallyDrop::get_count_trig_events(&trig) + 1
    );
}

#[test]
fn compare_api() {
    let mut trig = PanicTrigManuallyDrop::Panic;
    let mut safe_liba = SafeLibManuallyDrop::new(10usize);
    let mut safe_liba2 = SafeLibManuallyDrop::new(10usize);
    let unsafe_stda = UnsafeStdManuallyDrop::new(10usize);

    assert_eq!(safe_liba.as_value(&mut trig), safe_liba2.as_value(&mut trig));
    assert_eq!(safe_liba.as_value(&mut trig), (ControlOutcome::Continues, Some(&10usize)));
    assert_eq!(safe_liba2.as_value(&mut trig), (ControlOutcome::Continues, Some(&10usize)));
    assert_eq!(safe_liba.as_value(&mut trig).1, Some(&*unsafe_stda));

    let (outcome, owed) = SafeLibManuallyDrop::drop(&mut safe_liba, &mut trig);
    assert_eq!((outcome, owed), (ControlOutcome::Continues, Owed::Release));
    perform(&mut safe_liba, owed, 0);
    let (outcome, owed) = SafeLibManuallyDrop::drop(&mut safe_liba2, &mut trig);
    assert_eq!((outcome, owed), (ControlOutcome::Continues, Owed::Release));
    perform(&mut safe_liba2, owed, 0);
    drop(UnsafeStdManuallyDrop::into_inner(unsafe_stda));
}

#[test]
fn new_wrapper_is_empty_and_holds_the_value() {
    let mut trig = PanicTrigManuallyDrop::Panic;
    let mut slot = PanicManuallyDrop::new(vec![1, 2, 3, 4]);
    assert_eq!(slot.get_state(), Some(StateManuallyDropData::Empty));
    assert_eq!(slot.is_empty_state(), Some(true));
    assert!(!slot.is_next_trig());
    assert_eq!(slot.is_next_trig_optionresult(), Some(false));
    assert!(slot.is_safe_type());
    assert!(!slot.is_repr_transparent());
    assert_eq!(slot.as_value(&mut trig), (ControlOutcome::Continues, Some(&vec![1, 2, 3, 4])));
    assert_eq!(slot.force_as_value(), &vec![1, 2, 3, 4]);
    assert_eq!(&**slot.as_unsafestd_manuallydrop(), &vec![1, 2, 3, 4]);
    assert_eq!(&**slot.as_mut_unsafestd_manuallydrop(), &vec![1, 2, 3, 4]);
    let (_outcome, value) = PanicManuallyDrop::into_inner(slot, &mut trig);
    drop(value);
}

#[test]
fn from_std_wraps_the_value() {
    let mut trig = PanicTrigManuallyDrop::Panic;
    let slot = PanicManuallyDrop::from_std(UnsafeStdManuallyDrop::new(10usize));
    assert_eq!(slot.get_state(), Some(StateManuallyDropData::Empty));
    assert_eq!(slot.as_value(&mut trig), (ControlOutcome::Continues, Some(&10usize)));
}

#[test]
fn second_drop_asks_for_a_panic() {
    let mut trig = PanicTrigManuallyDrop::Panic;
    let mut slot = PanicManuallyDrop::new(vec![1, 2, 3, 4]);
    let (outcome, owed) = PanicManuallyDrop::drop(&mut slot, &mut trig);
    assert_eq!((outcome, owed), (ControlOutcome::Continues, Owed::Release));
    perform(&mut slot, owed, Vec::new());
    assert_eq!(slot.get_state(), Some(StateManuallyDropData::DropModeTrig));
    assert_eq!(
        PanicManuallyDrop::drop(&mut slot, &mut trig),
        (ControlOutcome::Diverges, Owed::Nothing)
    );
    assert_eq!(slot.get_state(), Some(StateManuallyDropData::DropModeTrig));
}

#[test]
fn second_drop_is_counted_and_owed() {
    let mut trig = CounterTrigManuallyDrop::new();
    let mut slot = AlwaysSafeCounterManuallyDrop::new([1, 2, 3, 4]);
    let (outcome, owed) = AlwaysSafeCounterManuallyDrop::drop(&mut slot, &mut trig);
    assert_eq!((outcome, owed), (ControlOutcome::Continues, Owed::Release));
    perform(&mut slot, owed, [1, 2, 3, 4]);
    assert_eq!(trig.get_count_trig_events(), 0);
    let (outcome, owed) = AlwaysSafeCounterManuallyDrop::drop(&mut slot, &mut trig);
    assert_eq!((outcome, owed), (ControlOutcome::Continues, Owed::Release));
    perform(&mut slot, owed, [1, 2, 3, 4]);
    assert_eq!(trig.get_count_trig_events(), 1);
}

#[test]
fn read_after_drop_fires() {
    let mut trig = CounterTrigManuallyDrop::new();
    let mut slot = AlwaysSafeCounterManuallyDrop::new([1, 2, 3, 4]);
    let (_outcome, owed) = AlwaysSafeCounterManuallyDrop::drop(&mut slot, &mut trig);
    perform(&mut slot, owed, [1, 2, 3, 4]);
    assert_eq!(slot.as_value(&mut trig), (ControlOutcome::Continues, Some(&[1, 2, 3, 4])));
    assert_eq!(trig.get_count_trig_events(), 1);
    assert_eq!(slot.as_mut_value(&mut trig), (ControlOutcome::Continues, Some(&mut [1, 2, 3, 4])));
    assert_eq!(trig.get_count_trig_events(), 2);

    let mut trig = PanicTrigManuallyDrop::Panic;
    let mut slot = PanicManuallyDrop::new(vec![1, 2, 3, 4]);
    let (_outcome, owed) = PanicManuallyDrop::drop(&mut slot, &mut trig);
    perform(&mut slot, owed, Vec::new());
    assert_eq!(slot.as_value(&mut trig), (ControlOutcome::Diverges, None));
    assert_eq!(slot.as_mut_value(&mut trig), (ControlOutcome::Diverges, None));
}

#[test]
fn drop_after_take_fires() {
    let mut trig = CounterTrigManuallyDrop::new();
    let mut slot = AlwaysSafeCounterManuallyDrop::new([1, 2, 3, 4]);
    let (outcome, owed) = AlwaysSafeCounterManuallyDrop::take(&mut slot, &mut trig);
    assert_eq!((outcome, owed), (ControlOutcome::Continues, Owed::Take));
    assert_eq!(perform(&mut slot, owed, [1, 2, 3, 4]), Some([1, 2, 3, 4]));
    assert_eq!(trig.get_count_trig_events(), 0);
    assert_eq!(
        AlwaysSafeCounterManuallyDrop::drop(&mut slot, &mut trig),
        (ControlOutcome::Continues, Owed::Release)
    );
    assert_eq!(trig.get_count_trig_events(), 1);
    assert_eq!(slot.get_state(), Some(StateManuallyDropData::DropModeTrig));

    let mut trig = PanicTrigManuallyDrop::Panic;
    let mut slot = PanicManuallyDrop::new(vec![1, 2, 3, 4]);
    let (_outcome, owed) = PanicManuallyDrop::take(&mut slot, &mut trig);
    assert_eq!(perform(&mut slot, owed, Vec::new()), Some(vec![1, 2, 3, 4]));
    assert_eq!(
        PanicManuallyDrop::drop(&mut slot, &mut trig),
        (ControlOutcome::Diverges, Owed::Nothing)
    );
}

#[test]
fn scope_end_after_ignore_drop_is_silent() {
    let released = Rc::new(Cell::new(0));
    let mut trig = CounterTrigManuallyDrop::new();
    let mut slot = AlwaysSafeCounterManuallyDrop::new(Released(released.clone()));
    assert_eq!(slot.ignore_drop(&mut trig), ControlOutcome::Continues);
    assert_eq!(slot.get_state(), Some(StateManuallyDropData::IgnoreTrigWhenDrop));
    assert_eq!(scope_end(slot, &mut trig), ControlOutcome::Continues);
    assert_eq!(trig.get_count_trig_events(), 0);
    assert_eq!(released.get(), 0);

    let mut trig = PanicTrigManuallyDrop::Panic;
    let mut slot = PanicManuallyDrop::new(10usize);
    assert_eq!(slot.ignore_drop(&mut trig), ControlOutcome::Continues);
    assert_eq!(scope_end(slot, &mut trig), ControlOutcome::Continues);
}

#[test]
fn hook_is_told_the_state_of_a_released_value() {
    let seen = RefCell::new(Vec::new());
    let mut trig = HookFnTrigManuallyDrop::new();
    trig.install_hook(|a: &str| {
        seen.borrow_mut().push(a.to_string());
        ControlOutcome::Diverges
    });
    let mut slot = AlwaysSafeHookManuallyDrop::new(vec![1, 2, 3, 4]);
    let (outcome, owed) = AlwaysSafeHookManuallyDrop::drop(&mut slot, &mut trig);
    assert_eq!((outcome, owed), (ControlOutcome::Continues, Owed::Release));
    perform(&mut slot, owed, Vec::new());
    assert!(seen.borrow().is_empty());
    assert_eq!(
        AlwaysSafeHookManuallyDrop::drop(&mut slot, &mut trig),
        (ControlOutcome::Diverges, Owed::Nothing)
    );
    assert_eq!(seen.borrow().len(), 1);
    assert!(seen.borrow()[0].contains("DropModeTrig"));
    assert_eq!(
        seen.borrow()[0],
        "Undefined behavior when using ManuallyDrop::drop, instead of the expected state Empty, the current state: DropModeTrig."
    );
}

#[test]
fn report_names_the_operation_that_was_attempted() {
    let seen = RefCell::new(Vec::new());
    let mut trig = HookFnTrigManuallyDrop::new();
    trig.install_hook(|a: &str| {
        seen.borrow_mut().push(a.to_string());
        ControlOutcome::Continues
    });
    let mut slot = AlwaysSafeHookManuallyDrop::new(7u8);
    slot.ignore_drop(&mut trig);
    AlwaysSafeHookManuallyDrop::drop(&mut slot, &mut trig);
    AlwaysSafeHookManuallyDrop::take(&mut slot, &mut trig);
    slot.ignore_drop(&mut trig);
    slot.as_value(&mut trig);
    slot.as_mut_value(&mut trig);
    AlwaysSafeHookManuallyDrop::into_inner(slot, &mut trig);
    assert_eq!(
        *seen.borrow(),
        vec![
            "Undefined behavior when using ManuallyDrop::drop, instead of the expected state Empty, the current state: IgnoreTrigWhenDrop.",
            "Undefined behavior when using ManuallyDrop::take, instead of the expected state Empty, the current state: DropModeTrig.",
            "Undefined behavior when using ManuallyDrop::ignore_drop, instead of the expected state Empty, the current state: TakeModeTrig.",
            "Undefined behavior when using ManuallyDrop::deref, instead of the expected state Empty, the current state: IgnoreTrigWhenDrop.",
            "Undefined behavior when using ManuallyDrop::deref, instead of the expected state Empty, the current state: IgnoreTrigWhenDrop.",
            "Undefined behavior when using ManuallyDrop::into_inner, instead of the expected state Empty, the current state: IgnoreTrigWhenDrop.",
        ]
    );
}

fn apply(
    slot: &mut AlwaysSafeCounterManuallyDrop<u8>,
    trig: &mut CounterTrigManuallyDrop,
    operation: usize,
) -> StateManuallyDropData {
    match operation {
        0 => {
            assert_eq!(
                AlwaysSafeCounterManuallyDrop::drop(slot, trig),
                (ControlOutcome::Continues, Owed::Release)
            );
            StateManuallyDropData::DropModeTrig
        },
        1 => {
            assert_eq!(
                AlwaysSafeCounterManuallyDrop::take(slot, trig),
                (ControlOutcome::Continues, Owed::Take)
            );
            StateManuallyDropData::TakeModeTrig
        },
        _ => {
            assert_eq!(slot.ignore_drop(trig), ControlOutcome::Continues);
            StateManuallyDropData::IgnoreTrigWhenDrop
        },
    }
}

#[test]
fn one_transition_is_valid_and_every_later_one_fires() {
    for first in 0..4 {
        for second in 0..4 {
            let mut trig = CounterTrigManuallyDrop::new();
            let mut slot = AlwaysSafeCounterManuallyDrop::new(7u8);
            if first == 3 {
                let (outcome, value) = AlwaysSafeCounterManuallyDrop::into_inner(slot, &mut trig);
                assert_eq!((outcome, value), (ControlOutcome::Continues, Some(7u8)));
                assert_eq!(trig.get_count_trig_events(), 0);
                continue;
            }
            let state = apply(&mut slot, &mut trig, first);
            assert_eq!(trig.get_count_trig_events(), 0);
            assert_eq!(slot.get_state(), Some(state));

            if second == 3 {
                let (outcome, value) = AlwaysSafeCounterManuallyDrop::into_inner(slot, &mut trig);
                assert_eq!((outcome, value), (ControlOutcome::Continues, Some(7u8)));
                assert_eq!(trig.get_count_trig_events(), 1);
                continue;
            }
            let state = apply(&mut slot, &mut trig, second);
            assert_eq!(trig.get_count_trig_events(), 1);
            assert_eq!(slot.get_state(), Some(state));

            apply(&mut slot, &mut trig, first);
            assert_eq!(trig.get_count_trig_events(), 2);
        }
    }
}

#[test]
fn reads_fire_after_every_transition_and_never_before() {
    for operation in 0..3 {
        let mut trig = CounterTrigManuallyDrop::new();
        let mut slot = AlwaysSafeCounterManuallyDrop::new(7u8);
        assert_eq!(slot.as_value(&mut trig), (ControlOutcome::Continues, Some(&7u8)));
        assert_eq!(slot.as_mut_value(&mut trig), (ControlOutcome::Continues, Some(&mut 7u8)));
        assert_eq!(trig.get_count_trig_events(), 0);

        apply(&mut slot, &mut trig, operation);
        assert_eq!(slot.as_value(&mut trig), (ControlOutcome::Continues, Some(&7u8)));
        assert_eq!(trig.get_count_trig_events(), 1);
        assert_eq!(slot.as_mut_value(&mut trig), (ControlOutcome::Continues, Some(&mut 7u8)));
        assert_eq!(trig.get_count_trig_events(), 2);
    }
}

#[test]
fn counter_counts_every_misuse_and_lets_it_pass() {
    let mut trig = CounterTrigManuallyDrop::new();
    let mut slot = AlwaysSafeCounterManuallyDrop::new([1u8, 2, 3, 4]);
    assert_eq!(slot.as_value(&mut trig), (ControlOutcome::Continues, Some(&[1u8, 2, 3, 4])));
    assert!(!slot.is_next_trig());

    let (_outcome, owed) = AlwaysSafeCounterManuallyDrop::drop(&mut slot, &mut trig); // valid
    perform(&mut slot, owed, [1u8, 2, 3, 4]);
    assert!(slot.is_next_trig());
    assert_eq!(AlwaysSafeCounterManuallyDrop::get_count_trig_events(&trig), 0);

    let (outcome, owed) = AlwaysSafeCounterManuallyDrop::drop(&mut slot, &mut trig); // misuse: 1
    assert_eq!((outcome, owed), (ControlOutcome::Continues, Owed::Release));
    perform(&mut slot, owed, [1u8, 2, 3, 4]);
    assert_eq!(AlwaysSafeCounterManuallyDrop::get_count_trig_events(&trig), 1);

    assert_eq!(slot.as_value(&mut trig), (ControlOutcome::Continues, Some(&[1u8, 2, 3, 4]))); // misuse: 2
    assert_eq!(AlwaysSafeCounterManuallyDrop::get_count_trig_events(&trig), 2);

    let (outcome, owed) = AlwaysSafeCounterManuallyDrop::take(&mut slot, &mut trig); // misuse: 3
    assert_eq!((outcome, owed), (ControlOutcome::Continues, Owed::Take));
    assert_eq!(perform(&mut slot, owed, [1u8, 2, 3, 4]), Some([1u8, 2, 3, 4]));
    assert_eq!(AlwaysSafeCounterManuallyDrop::get_count_trig_events(&trig), 3);
}

#[test]
fn counter_is_shared_by_wrappers() {
    let mut trig = CounterTrigManuallyDrop::new();
    let mut first = AlwaysSafeCounterManuallyDrop::new(1u8);
    let mut second = AlwaysSafeCounterManuallyDrop::new(2u8);
    AlwaysSafeCounterManuallyDrop::drop(&mut first, &mut trig);
    AlwaysSafeCounterManuallyDrop::drop(&mut second, &mut trig);
    AlwaysSafeCounterManuallyDrop::drop(&mut first, &mut trig);
    AlwaysSafeCounterManuallyDrop::drop(&mut second, &mut trig);
    assert_eq!(trig.get_count_trig_events(), 2);
}

#[test]
fn drop_releases_when_the_caller_does_what_is_owed() {
    let released = Rc::new(Cell::new(0));
    let mut trig = CounterTrigManuallyDrop::new();
    let mut slot = AlwaysSafeCounterManuallyDrop::new(Released(released.clone()));
    assert_eq!(released.get(), 0);
    let (_outcome, owed) = AlwaysSafeCounterManuallyDrop::drop(&mut slot, &mut trig);
    assert_eq!(released.get(), 0);
    perform(&mut slot, owed, Released(released.clone()));
    assert_eq!(released.get(), 1);
    assert_eq!(scope_end(slot, &mut trig), ControlOutcome::Continues);
    assert_eq!(released.get(), 1);
    assert_eq!(trig.get_count_trig_events(), 0);
}

#[test]
fn diverging_trigger_owes_nothing() {
    let released = Rc::new(Cell::new(0));
    let mut trig = PanicTrigManuallyDrop::Panic;
    let mut slot = PanicManuallyDrop::new(Released(released.clone()));
    assert_eq!(slot.ignore_drop(&mut trig), ControlOutcome::Continues);
    let (outcome, owed) = PanicManuallyDrop::drop(&mut slot, &mut trig);
    assert_eq!((outcome, owed), (ControlOutcome::Diverges, Owed::Nothing));
    assert!(perform(&mut slot, owed, Released(released.clone())).is_none());
    assert_eq!(released.get(), 0);
    assert_eq!(slot.get_state(), Some(StateManuallyDropData::DropModeTrig));
    let (outcome, owed) = PanicManuallyDrop::take(&mut slot, &mut trig);
    assert_eq!((outcome, owed), (ControlOutcome::Diverges, Owed::Nothing));
    assert_eq!(PanicManuallyDrop::into_inner(slot, &mut trig).0, ControlOutcome::Diverges);
    assert_eq!(released.get(), 0);
}

#[test]
fn wrapper_never_releases_by_itself() {
    let released = Rc::new(Cell::new(0));
    let slot = PanicManuallyDrop::new(Released(released.clone()));
    drop(slot);
    assert_eq!(released.get(), 0);
}

#[test]
fn scope_end_of_fresh_wrapper_releases_and_fires() {
    let released = Cell::new(0u32);
    let seen = RefCell::new(Vec::new());
    let mut trig = HookFnTrigManuallyDrop::new();
    trig.install_hook(|a: &str| {
        seen.borrow_mut().push((a.to_string(), released.get()));
        ControlOutcome::Diverges
    });
    let mut slot = AlwaysSafeHookManuallyDrop::new(7u8);
    let outcome = slot.auto_drop(&mut trig, || released.set(released.get() + 1));
    assert_eq!(outcome, ControlOutcome::Diverges);
    assert_eq!(released.get(), 1);
    assert_eq!(
        *seen.borrow(),
        vec![(
            "Undefined behavior when using ManuallyDrop (expected ManuallyDrop::drop(&mut value)), state should not be Empty, current state is Empty.".to_string(),
            1
        )]
    );
}

#[test]
fn scope_end_keeps_the_state() {
    let mut trig = CounterTrigManuallyDrop::new();
    let mut slot = AlwaysSafeCounterManuallyDrop::new(7u8);
    let calls = Cell::new(0u32);
    assert_eq!(slot.auto_drop(&mut trig, || calls.set(calls.get() + 1)), ControlOutcome::Continues);
    assert_eq!(calls.get(), 1);
    assert_eq!(trig.get_count_trig_events(), 1);
    assert_eq!(slot.get_state(), Some(StateManuallyDropData::Empty));
}

#[test]
fn scope_end_after_release_or_take_is_silent() {
    for operation in 0..3 {
        let mut trig = CounterTrigManuallyDrop::new();
        let mut slot = AlwaysSafeCounterManuallyDrop::new(7u8);
        apply(&mut slot, &mut trig, operation);
        let calls = Cell::new(0u32);
        assert_eq!(
            slot.auto_drop(&mut trig, || calls.set(calls.get() + 1)),
            ControlOutcome::Continues
        );
        assert_eq!(calls.get(), 0);
        assert_eq!(trig.get_count_trig_events(), 0);
    }
}

#[test]
fn forget_never_releases_and_never_fires() {
    let released = Rc::new(Cell::new(0));
    let mut trig = CounterTrigManuallyDrop::new();
    AlwaysSafeCounterManuallyDrop::forget(Released(released.clone()), &mut trig);
    assert_eq!(released.get(), 0);
    assert_eq!(trig.get_count_trig_events(), 0);
}

#[test]
fn take_moves_the_value_out() {
    let released = Rc::new(Cell::new(0));
    let mut trig = CounterTrigManuallyDrop::new();
    let mut slot = AlwaysSafeCounterManuallyDrop::new(Released(released.clone()));
    let (outcome, owed) = AlwaysSafeCounterManuallyDrop::take(&mut slot, &mut trig);
    assert_eq!((outcome, owed), (ControlOutcome::Continues, Owed::Take));
    let value = perform(&mut slot, owed, Released(released.clone()));
    assert!(value.is_some());
    assert_eq!(released.get(), 0);
    assert_eq!(slot.get_state(), Some(StateManuallyDropData::TakeModeTrig));
    drop(value);
    assert_eq!(released.get(), 1);
}

#[test]
fn into_inner_hands_the_value_out() {
    let mut trig = PanicTrigManuallyDrop::Panic;
    let slot = PanicManuallyDrop::new(build_new_test_vec());
    assert_eq!(
        PanicManuallyDrop::into_inner(slot, &mut trig),
        (ControlOutcome::Continues, Some(build_new_test_vec()))
    );

    let slot = PanicManuallyDrop::new(build_new_test_vec());
    let (outcome, value) = PanicManuallyDrop::into_core_inner(slot, &mut trig);
    assert_eq!(outcome, ControlOutcome::Continues);
    assert_eq!(value.map(UnsafeStdManuallyDrop::into_inner), Some(build_new_test_vec()));
}

#[test]
fn into_inner_after_a_misuse_hands_out_under_counter() {
    let mut trig = CounterTrigManuallyDrop::new();
    let mut slot = AlwaysSafeCounterManuallyDrop::new(5u8);
    slot.ignore_drop(&mut trig);
    assert_eq!(
        AlwaysSafeCounterManuallyDrop::into_inner(slot, &mut trig),
        (ControlOutcome::Continues, Some(5u8))
    );
    assert_eq!(trig.get_count_trig_events(), 1);
}

#[test]
fn as_mut_value_writes_through() {
    let mut trig = PanicTrigManuallyDrop::Panic;
    let mut slot = PanicManuallyDrop::new(vec![1, 2, 3]);
    {
        let (outcome, value) = slot.as_mut_value(&mut trig);
        assert_eq!(outcome, ControlOutcome::Continues);
        value.unwrap().push(4);
    }
    assert_eq!(slot.as_value(&mut trig), (ControlOutcome::Continues, Some(&vec![1, 2, 3, 4])));
    *slot.force_as_mut_value() = vec![9];
    assert_eq!(slot.force_as_value(), &vec![9]);
    **slot.as_mut_unsafestd_manuallydrop() = vec![8];
    assert_eq!(
        PanicManuallyDrop::into_inner(slot, &mut trig),
        (ControlOutcome::Continues, Some(vec![8]))
    );
}

#[test]
fn reset_makes_the_state_empty_again() {
    let mut trig = CounterTrigManuallyDrop::new();
    let mut slot = AlwaysSafeCounterManuallyDrop::new(7u8);
    AlwaysSafeCounterManuallyDrop::drop(&mut slot, &mut trig);
    assert_eq!(slot.get_state_and_reset(), Some(StateManuallyDropData::DropModeTrig));
    assert_eq!(slot.get_state(), Some(StateManuallyDropData::Empty));
    assert_eq!(slot.is_empty_state(), Some(true));
    assert_eq!(slot.as_value(&mut trig), (ControlOutcome::Continues, Some(&7u8)));
    assert_eq!(trig.get_count_trig_events(), 0);
    assert_eq!(slot.get_state_and_reset(), Some(StateManuallyDropData::Empty));
}

#[test]
fn loop_trigger_stops_the_operation_and_marks() {
    let mut trig = EmptyLoopTrigManuallyDrop::new(true);
    let mut slot = AlwaysSafeEmptyLoopManuallyDrop::new(7u8);
    assert_eq!(slot.ignore_drop(&mut trig), ControlOutcome::Continues);
    assert!(!trig.is_trig_next_invalid_beh());
    assert_eq!(
        AlwaysSafeEmptyLoopManuallyDrop::take(&mut slot, &mut trig),
        (ControlOutcome::Diverges, Owed::Nothing)
    );
    assert!(trig.is_trig_next_invalid_beh());
    assert_eq!(slot.force_as_value(), &7u8);
}
