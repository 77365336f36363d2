use std::time::{Duration, Instant};

use stopwatch::{Timer, TimerError, TimerState};

fn wait(span: Duration) {
    let begin = Instant::now();
    while begin.elapsed() < span {
        std::hint::spin_loop();
    }
}

#[test]
fn test_subtimer() {
    let mut timer = Timer::new();
    let a = timer.add_subtimer().expect("Error");
    let b = timer.add_subtimer().expect("Error");

    timer.start().expect("Illegal");
    assert!(timer.add_subtimer().is_err());
    wait(Duration::from_secs(1));
    let a = timer.finish_subtimer(a).expect("Error");
    assert_eq!(a.get_time().expect("Should contain time").as_secs(), 1);
    assert_eq!(timer.get_subtimer(4).is_err(), true);
    timer.finish().expect("Illegal");
    wait(Duration::from_secs(1));
    let b = timer.get_subtimer(b).expect("Error");
    wait(Duration::from_secs(1));
    assert_eq!(b.get_time().expect("Should contain time").as_secs(), 1);

    timer.reset().expect("Illegal");
    assert_eq!(timer.get_subtimer(0).is_err(), true);

    let a = timer.add_subtimer().expect("Illegal");
    assert_eq!(timer.finish_subtimer(a).is_err(), true);
}

#[test]
fn subtimers_get_indices_in_order() {
    let mut timer = Timer::new();
    assert_eq!(timer.add_subtimer().unwrap(), 0);
    assert_eq!(timer.add_subtimer().unwrap(), 1);
    assert_eq!(timer.add_subtimer().unwrap(), 2);
    for index in 0..3 {
        let sub = timer.get_subtimer(index).unwrap();
        assert!(!sub.is_finished());
        assert!(matches!(sub.get_time(), Err(TimerError::SubTimerNotFinished)));
    }
}

#[test]
fn subtimers_are_registered_only_in_init() {
    let mut timer = Timer::new();
    timer.add_subtimer().unwrap();
    timer.start_at(0).unwrap();
    match timer.add_subtimer() {
        Err(TimerError::Unsupported { state, operation }) => {
            assert_eq!(state, TimerState::Running);
            assert_eq!(operation, "add subtimer");
        }
        other => panic!("unexpected answer {:?}", other),
    }
    timer.pause_at(1).unwrap();
    assert!(matches!(
        timer.add_subtimer(),
        Err(TimerError::Unsupported { state: TimerState::Paused, .. })
    ));
    timer.finish_at(2).unwrap();
    assert!(matches!(
        timer.add_subtimer(),
        Err(TimerError::Unsupported { state: TimerState::Finished, .. })
    ));
    assert!(timer.get_subtimer(1).is_err());
    timer.reset().unwrap();
    assert_eq!(timer.add_subtimer().unwrap(), 0);
}

#[test]
fn finishing_one_of_two_keeps_the_timer_running() {
    let mut timer = Timer::new();
    let a = timer.add_subtimer().unwrap();
    let b = timer.add_subtimer().unwrap();
    timer.start_at(1_000).unwrap();

    let first = timer.finish_subtimer_at(a, 1_600).unwrap();
    assert!(first.is_finished());
    assert_eq!(first.get_time().unwrap().as_nanos(), 600);
    assert_eq!(timer.state(), TimerState::Running);
    assert!(!timer.get_subtimer(b).unwrap().is_finished());
    assert_eq!(timer.get_subtimer(a).unwrap().get_time().unwrap().as_nanos(), 600);
}

#[test]
fn finishing_the_last_subtimer_finishes_the_timer() {
    let mut timer = Timer::new();
    let a = timer.add_subtimer().unwrap();
    let b = timer.add_subtimer().unwrap();
    timer.start_at(1_000).unwrap();
    timer.finish_subtimer_at(a, 1_600).unwrap();

    let last = timer.finish_subtimer_at(b, 1_900).unwrap();
    assert!(last.is_finished());
    assert_eq!(last.get_time().unwrap().as_nanos(), 900);
    assert_eq!(timer.state(), TimerState::Finished);
    // The finish of the timer stamps every subtimer with the final time.
    assert_eq!(timer.get_subtimer(a).unwrap().get_time().unwrap().as_nanos(), 900);
    assert_eq!(timer.get_subtimer(b).unwrap().get_time().unwrap().as_nanos(), 900);
    assert!(timer.pause_at(2_000).is_err());
    assert!(timer.reset().is_ok());
}

#[test]
fn single_subtimer_finishes_the_timer_at_once() {
    let mut timer = Timer::new();
    let only = timer.add_subtimer().unwrap();
    timer.start_at(0).unwrap();
    let sub = timer.finish_subtimer_at(only, 42).unwrap();
    assert_eq!(sub.get_time().unwrap().as_nanos(), 42);
    assert_eq!(timer.state(), TimerState::Finished);
}

#[test]
fn finish_stamps_every_subtimer() {
    let mut timer = Timer::new();
    let a = timer.add_subtimer().unwrap();
    let b = timer.add_subtimer().unwrap();
    let c = timer.add_subtimer().unwrap();
    timer.start_at(0).unwrap();
    timer.finish_subtimer_at(a, SECOND).unwrap();
    timer.finish_at(3 * SECOND).unwrap();
    for index in [a, b, c] {
        let sub = timer.get_subtimer(index).unwrap();
        assert!(sub.is_finished());
        assert_eq!(sub.get_time().unwrap().as_secs(), 3);
    }
}

#[test]
fn finish_subtimer_needs_a_running_timer() {
    let mut timer = Timer::new();
    let a = timer.add_subtimer().unwrap();
    timer.add_subtimer().unwrap();
    match timer.finish_subtimer_at(a, 1) {
        Err(TimerError::Unsupported { state, operation }) => {
            assert_eq!(state, TimerState::Init);
            assert_eq!(operation, "finish subtimer");
        }
        other => panic!("unexpected answer {:?}", other),
    }
    assert!(matches!(
        timer.finish_subtimer(a),
        Err(TimerError::Unsupported { state: TimerState::Init, .. })
    ));
    timer.start_at(0).unwrap();
    timer.pause_at(1).unwrap();
    assert!(matches!(
        timer.finish_subtimer_at(a, 2),
        Err(TimerError::Unsupported { state: TimerState::Paused, .. })
    ));
    assert!(!timer.get_subtimer(a).unwrap().is_finished());
    timer.finish_at(3).unwrap();
    assert!(matches!(
        timer.finish_subtimer_at(a, 4),
        Err(TimerError::Unsupported { state: TimerState::Finished, .. })
    ));
    // Out of `Running` the state is reported before the index is looked at.
    assert!(matches!(
        timer.finish_subtimer_at(9, 4),
        Err(TimerError::Unsupported { state: TimerState::Finished, .. })
    ));
    assert_eq!(timer.get_subtimer(a).unwrap().get_time().unwrap().as_nanos(), 3);
}

#[test]
fn finished_subtimer_is_not_finished_twice() {
    let mut timer = Timer::new();
    let a = timer.add_subtimer().unwrap();
    timer.add_subtimer().unwrap();
    timer.start_at(0).unwrap();
    timer.finish_subtimer_at(a, 10).unwrap();
    match timer.finish_subtimer_at(a, 20) {
        Err(TimerError::Unsupported { state, operation }) => {
            assert_eq!(state, TimerState::Finished);
            assert_eq!(operation, "finish subtimer");
        }
        other => panic!("unexpected answer {:?}", other),
    }
    assert_eq!(timer.get_subtimer(a).unwrap().get_time().unwrap().as_nanos(), 10);
    assert_eq!(timer.state(), TimerState::Running);
}

#[test]
fn index_at_the_count_is_out_of_range() {
    let mut timer = Timer::new();
    assert!(matches!(timer.get_subtimer(0), Err(TimerError::InvalidSubtimerIndex(0))));
    timer.add_subtimer().unwrap();
    timer.add_subtimer().unwrap();
    assert!(timer.get_subtimer(1).is_ok());
    assert!(matches!(timer.get_subtimer(2), Err(TimerError::InvalidSubtimerIndex(2))));
    assert!(matches!(timer.get_subtimer(4), Err(TimerError::InvalidSubtimerIndex(4))));
    assert!(matches!(timer.check_subtimer_index(2), Err(TimerError::InvalidSubtimerIndex(2))));
    assert!(timer.check_subtimer_index(1).is_ok());
    assert!(matches!(timer.delete_subtimer(2), Err(TimerError::InvalidSubtimerIndex(2))));
    timer.start_at(0).unwrap();
    assert!(matches!(
        timer.finish_subtimer_at(2, 1),
        Err(TimerError::InvalidSubtimerIndex(2))
    ));
    assert!(matches!(timer.resume_subtimer(2), Err(TimerError::InvalidSubtimerIndex(2))));
    assert!(matches!(
        timer.get_subtimer(usize::MAX),
        Err(TimerError::InvalidSubtimerIndex(usize::MAX))
    ));
    assert_eq!(timer.state(), TimerState::Running);
}

#[test]
fn reset_drops_the_subtimers() {
    let mut timer = Timer::new();
    let a = timer.add_subtimer().unwrap();
    let b = timer.add_subtimer().unwrap();
    timer.start_at(0).unwrap();
    timer.finish_at(5).unwrap();
    assert!(timer.get_subtimer(a).is_ok());
    timer.reset().unwrap();
    assert!(matches!(timer.get_subtimer(a), Err(TimerError::InvalidSubtimerIndex(0))));
    assert!(matches!(timer.get_subtimer(b), Err(TimerError::InvalidSubtimerIndex(1))));
    assert!(matches!(timer.delete_subtimer(a), Err(TimerError::InvalidSubtimerIndex(0))));
    // A subtimer of the new round starts unfinished under index 0.
    assert_eq!(timer.add_subtimer().unwrap(), 0);
    assert!(!timer.get_subtimer(0).unwrap().is_finished());
}

#[test]
fn delete_subtimer_only_in_init() {
    let mut timer = Timer::new();
    timer.add_subtimer().unwrap();
    timer.add_subtimer().unwrap();
    timer.start_at(0).unwrap();
    match timer.delete_subtimer(0) {
        Err(TimerError::Unsupported { state, operation }) => {
            assert_eq!(state, TimerState::Running);
            assert_eq!(operation, "delete subtimer");
        }
        other => panic!("unexpected answer {:?}", other),
    }
    timer.pause_at(1).unwrap();
    assert!(matches!(
        timer.delete_subtimer(0),
        Err(TimerError::Unsupported { state: TimerState::Paused, .. })
    ));
    timer.finish_at(2).unwrap();
    assert!(matches!(
        timer.delete_subtimer(0),
        Err(TimerError::Unsupported { state: TimerState::Finished, .. })
    ));
    // Out of `Init` the state is reported before the index is looked at.
    assert!(matches!(
        timer.delete_subtimer(9),
        Err(TimerError::Unsupported { state: TimerState::Finished, .. })
    ));
    assert!(timer.get_subtimer(1).is_ok());
}

#[test]
fn delete_subtimer_moves_later_indices_down() {
    let mut timer = Timer::new();
    timer.add_subtimer().unwrap();
    timer.add_subtimer().unwrap();
    timer.add_subtimer().unwrap();
    assert!(timer.delete_subtimer(0).is_ok());
    assert!(timer.get_subtimer(0).is_ok());
    assert!(timer.get_subtimer(1).is_ok());
    assert!(matches!(timer.get_subtimer(2), Err(TimerError::InvalidSubtimerIndex(2))));
    assert!(timer.delete_subtimer(1).is_ok());
    assert!(timer.get_subtimer(0).is_ok());
    assert!(matches!(timer.get_subtimer(1), Err(TimerError::InvalidSubtimerIndex(1))));
    assert!(timer.delete_subtimer(0).is_ok());
    assert!(matches!(timer.delete_subtimer(0), Err(TimerError::InvalidSubtimerIndex(0))));
    // The next registration takes the first free index.
    assert_eq!(timer.add_subtimer().unwrap(), 0);
    assert_eq!(timer.state(), TimerState::Init);
}

#[test]
fn resume_subtimer_opens_a_finished_subtimer_again() {
    let mut timer = Timer::new();
    let a = timer.add_subtimer().unwrap();
    let b = timer.add_subtimer().unwrap();
    timer.start_at(0).unwrap();
    timer.finish_subtimer_at(a, 10).unwrap();
    assert!(timer.resume_subtimer(a).is_ok());
    let sub = timer.get_subtimer(a).unwrap();
    assert!(!sub.is_finished());
    assert!(matches!(sub.get_time(), Err(TimerError::SubTimerNotFinished)));
    assert_eq!(timer.state(), TimerState::Running);
    // It can be finished once more, with a new time.
    assert_eq!(timer.finish_subtimer_at(a, 25).unwrap().get_time().unwrap().as_nanos(), 25);
    // Opening an unfinished subtimer leaves it unfinished.
    assert!(timer.resume_subtimer(b).is_ok());
    assert!(!timer.get_subtimer(b).unwrap().is_finished());
}

#[test]
fn resume_subtimer_needs_a_running_timer() {
    let mut timer = Timer::new();
    let a = timer.add_subtimer().unwrap();
    match timer.resume_subtimer(a) {
        Err(TimerError::Unsupported { state, operation }) => {
            assert_eq!(state, TimerState::Init);
            assert_eq!(operation, "resume subtimer");
        }
        other => panic!("unexpected answer {:?}", other),
    }
    timer.start_at(0).unwrap();
    timer.pause_at(1).unwrap();
    assert!(matches!(
        timer.resume_subtimer(a),
        Err(TimerError::Unsupported { state: TimerState::Paused, .. })
    ));
    timer.finish_at(2).unwrap();
    // A finished timer would have to resume first, which the table refuses.
    assert!(matches!(
        timer.resume_subtimer(a),
        Err(TimerError::IllegalStateTransition {
            current: TimerState::Finished,
            next: TimerState::Running
        })
    ));
    assert_eq!(timer.state(), TimerState::Finished);
    assert!(timer.get_subtimer(a).unwrap().is_finished());
}

#[test]
fn get_subtimer_answers_in_every_state() {
    let mut timer = Timer::new();
    let a = timer.add_subtimer().unwrap();
    assert!(timer.get_subtimer(a).is_ok());
    timer.start_at(0).unwrap();
    assert!(timer.get_subtimer(a).is_ok());
    timer.pause_at(1).unwrap();
    assert!(timer.get_subtimer(a).is_ok());
    timer.finish_at(2).unwrap();
    assert_eq!(timer.get_subtimer(a).unwrap().get_time().unwrap().as_nanos(), 2);
}

#[test]
fn own_clock_stamps_subtimers() {
    let mut timer = Timer::new();
    let a = timer.add_subtimer().unwrap();
    let b = timer.add_subtimer().unwrap();
    timer.start().unwrap();
    wait(Duration::from_millis(20));
    let first = timer.finish_subtimer(a).unwrap().get_time().unwrap();
    assert!(first.as_nanos() >= 20_000_000);
    assert_eq!(timer.state(), TimerState::Running);
    wait(Duration::from_millis(20));
    let last = timer.finish_subtimer(b).unwrap().get_time().unwrap();
    assert!(last.as_nanos() >= 40_000_000);
    assert_eq!(timer.state(), TimerState::Finished);
    assert_eq!(timer.get_subtimer(a).unwrap().get_time().unwrap(), last);
}

const SECOND: u128 = 1_000_000_000;
