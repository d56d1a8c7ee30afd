use std::sync::atomic::AtomicBool;
use std::sync::Arc;

use awaitable_bool::{AwaitableBool, Transition};

#[test]
fn initializing_as_true() {
    let awaitable = AwaitableBool::new(true);

    assert!(awaitable.is_true());
    assert!(!awaitable.is_false());
}

#[test]
fn initializing_as_false() {
    let awaitable = AwaitableBool::new(false);

    assert!(awaitable.is_false());
    assert!(!awaitable.is_true());
}

#[test]
fn a_fresh_flag_reports_its_initial_value() {
    for initial in [false, true] {
        let flag = AwaitableBool::new(initial);
        assert_eq!(flag.load(), initial);
        assert_eq!(flag.is_true(), initial);
        assert_eq!(flag.is_false(), !initial);
    }
}

#[test]
fn a_flag_can_be_built_around_an_existing_cell() {
    let flag = AwaitableBool::new(AtomicBool::new(true));
    assert!(flag.load());

    let flag = AwaitableBool::new(AtomicBool::new(false));
    assert!(!flag.load());
}

#[test]
fn conversion_builds_the_same_flag_as_new() {
    let from_bool: AwaitableBool = true.into();
    assert!(from_bool.load());

    let from_cell = AwaitableBool::from(AtomicBool::new(false));
    assert!(!from_cell.load());

    let from_cell = AwaitableBool::from(AtomicBool::new(true));
    assert!(from_cell.load());
}

#[test]
fn the_default_flag_is_false() {
    let flag = AwaitableBool::default();
    assert!(!flag.load());
    assert!(flag.is_false());
}

#[test]
fn set_true_flips_a_false_flag_and_says_so() {
    let flag = AwaitableBool::new(false);

    assert_eq!(flag.set_true(), Transition { previous: false, current: true, notified: true });
    assert!(flag.load());
}

#[test]
fn set_true_is_idempotent() {
    for initial in [false, true] {
        let flag = AwaitableBool::new(initial);
        flag.set_true();
        assert!(flag.load());
        for _ in 0..3 {
            assert_eq!(
                flag.set_true(),
                Transition { previous: true, current: true, notified: false }
            );
            assert!(flag.load());
        }
    }
}

#[test]
fn set_false_flips_a_true_flag_and_says_so() {
    let flag = AwaitableBool::new(true);

    assert_eq!(flag.set_false(), Transition { previous: true, current: false, notified: true });
    assert!(!flag.load());
}

#[test]
fn set_false_is_idempotent() {
    for initial in [false, true] {
        let flag = AwaitableBool::new(initial);
        flag.set_false();
        assert!(!flag.load());
        for _ in 0..3 {
            assert_eq!(
                flag.set_false(),
                Transition { previous: false, current: false, notified: false }
            );
            assert!(!flag.load());
        }
    }
}

#[test]
fn toggle_flips_the_value_once_per_call() {
    let flag = AwaitableBool::new(false);

    assert_eq!(flag.toggle(), Transition { previous: false, current: true, notified: true });
    assert!(flag.load());
    assert_eq!(flag.toggle(), Transition { previous: true, current: false, notified: true });
    assert!(!flag.load());
}

#[test]
fn toggling_twice_returns_to_the_starting_value() {
    for initial in [false, true] {
        let flag = AwaitableBool::new(initial);
        flag.toggle();
        assert_eq!(flag.load(), !initial);
        flag.toggle();
        assert_eq!(flag.load(), initial);
    }
}

#[test]
fn toggling_a_false_flag_twice_in_sequence_leaves_it_false() {
    let flag = AwaitableBool::new(false);
    flag.toggle();
    flag.toggle();
    assert!(!flag.load());
}

#[test]
fn the_flag_cycles_for_as_long_as_it_lives() {
    let flag = AwaitableBool::new(false);
    for _ in 0..100 {
        assert!(flag.set_true().notified);
        assert!(flag.set_false().notified);
        assert!(flag.toggle().current);
        assert!(!flag.toggle().current);
    }
    assert!(flag.is_false());
}

#[test]
fn into_inner_holds_the_last_value_loaded() {
    let flag = AwaitableBool::new(false);
    flag.set_true();
    flag.toggle();
    flag.toggle();
    flag.set_false();
    flag.toggle();
    let last = flag.load();
    assert!(last);
    assert_eq!(flag.into_inner().into_inner(), last);

    let flag = AwaitableBool::new(true);
    flag.set_false();
    let last = flag.load();
    assert!(!last);
    assert_eq!(flag.into_inner().into_inner(), last);
}

#[test]
fn into_inner_of_an_untouched_flag_holds_the_initial_value() {
    assert!(AwaitableBool::new(true).into_inner().into_inner());
    assert!(!AwaitableBool::new(false).into_inner().into_inner());
    assert!(!AwaitableBool::default().into_inner().into_inner());
}

#[test]
fn of_two_tasks_setting_a_true_flag_false_exactly_one_makes_the_change() {
    let runtime = tokio::runtime::Builder::new_multi_thread().worker_threads(2).build().unwrap();
    runtime.block_on(async {
        for _ in 0..200 {
            let flag = Arc::new(AwaitableBool::new(true));
            let start = Arc::new(tokio::sync::Barrier::new(2));
            let mut setters = Vec::new();
            for _ in 0..2 {
                let flag = Arc::clone(&flag);
                let start = Arc::clone(&start);
                setters.push(tokio::spawn(async move {
                    start.wait().await;
                    flag.set_false()
                }));
            }
            let mut steps = Vec::new();
            for setter in setters {
                steps.push(setter.await.unwrap());
            }
            steps.sort_by_key(|step| !step.notified);

            assert_eq!(
                steps,
                vec![
                    Transition { previous: true, current: false, notified: true },
                    Transition { previous: false, current: false, notified: false },
                ]
            );
            assert!(!flag.load());
        }
    });
}

#[test]
fn many_tasks_toggling_an_even_number_of_times_restore_the_value() {
    let runtime = tokio::runtime::Builder::new_multi_thread().worker_threads(4).build().unwrap();
    runtime.block_on(async {
        let flag = Arc::new(AwaitableBool::new(true));
        let mut togglers = Vec::new();
        for _ in 0..8 {
            let flag = Arc::clone(&flag);
            togglers.push(tokio::spawn(async move {
                let mut woken = 0;
                for _ in 0..250 {
                    let step = flag.toggle();
                    assert_eq!(step.current, !step.previous);
                    if step.notified {
                        woken += 1;
                    }
                }
                woken
            }));
        }
        let mut woken = 0;
        for toggler in togglers {
            woken += toggler.await.unwrap();
        }
        assert_eq!(woken, 2000);
        assert!(flag.load());
    });
}
