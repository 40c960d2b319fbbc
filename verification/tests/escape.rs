use julia_explorer::escape::{EscapeTracker, Progress, MAX_ITERS, POST_ESCAPE_ITERATIONS};

#[derive(Debug, PartialEq)]
enum Seen {
    Pending(usize),
    Escaped(usize),
    Inside,
}

/// Feeds the observations to a fresh tracker until the orbit is decided or
/// the observations run out; `Pending` carries the number of steps taken in.
fn feed(observations: &[bool]) -> Seen {
    let mut tracker = EscapeTracker::new();
    let mut taken = 0;
    for &exceeds in observations {
        taken += 1;
        match tracker.advance(exceeds) {
            Progress::Running(next) => tracker = next,
            Progress::Escaped(i) => return Seen::Escaped(i),
            Progress::Inside => return Seen::Inside,
        }
    }
    Seen::Pending(taken)
}

fn quiet(len: usize) -> Vec<bool> {
    vec![false; len]
}

#[test]
fn constants_have_their_documented_values() {
    assert_eq!(MAX_ITERS, 250);
    assert_eq!(POST_ESCAPE_ITERATIONS, 2);
}

#[test]
fn nothing_observed_is_pending() {
    assert_eq!(feed(&[]), Seen::Pending(0));
}

#[test]
fn one_step_below_the_threshold_keeps_running() {
    assert!(matches!(EscapeTracker::new().advance(false), Progress::Running(_)));
}

#[test]
fn one_step_over_the_threshold_keeps_running() {
    assert!(matches!(EscapeTracker::new().advance(true), Progress::Running(_)));
}

#[test]
fn grace_steps_do_not_escape() {
    assert_eq!(feed(&[true]), Seen::Pending(1));
    assert_eq!(feed(&[true, true]), Seen::Pending(2));
    assert_eq!(feed(&[true, true, true]), Seen::Pending(3));
}

#[test]
fn escape_is_declared_on_the_fourth_step_over_the_threshold() {
    assert_eq!(feed(&[true, true, true, true]), Seen::Escaped(3));
}

#[test]
fn escape_index_is_the_index_of_the_deciding_step() {
    assert_eq!(feed(&[false, false, true, true, true, true]), Seen::Escaped(5));
}

#[test]
fn steps_over_the_threshold_need_not_be_consecutive() {
    let observations = [true, false, true, false, false, true, false, true];
    assert_eq!(feed(&observations), Seen::Escaped(7));
}

#[test]
fn falling_back_below_the_threshold_does_not_reset_the_grace_count() {
    let observations = [true, true, true, false, false, false, true];
    assert_eq!(feed(&observations), Seen::Escaped(6));
}

#[test]
fn observations_after_the_escape_are_not_taken_in() {
    let observations = [true, true, true, true, false, true, true];
    assert_eq!(feed(&observations), Seen::Escaped(3));
}

#[test]
fn quiet_orbit_is_pending_one_step_before_the_budget_ends() {
    assert_eq!(feed(&quiet(MAX_ITERS - 1)), Seen::Pending(MAX_ITERS - 1));
}

#[test]
fn quiet_orbit_is_inside_when_the_budget_ends() {
    assert_eq!(feed(&quiet(MAX_ITERS)), Seen::Inside);
}

#[test]
fn quiet_orbit_is_decided_by_the_last_budgeted_step() {
    let mut tracker = EscapeTracker::new();
    for _ in 0..MAX_ITERS - 1 {
        tracker = match tracker.advance(false) {
            Progress::Running(next) => next,
            _ => panic!("decided before the budget ended"),
        };
    }
    assert!(matches!(tracker.advance(false), Progress::Inside));
}

#[test]
fn orbit_within_its_grace_steps_is_inside_when_the_budget_ends() {
    let mut observations = quiet(MAX_ITERS);
    observations[10] = true;
    observations[100] = true;
    observations[MAX_ITERS - 1] = true;
    assert_eq!(feed(&observations), Seen::Inside);
}

#[test]
fn escape_on_the_last_budgeted_step_is_still_an_escape() {
    let mut observations = quiet(MAX_ITERS);
    observations[0] = true;
    observations[1] = true;
    observations[2] = true;
    observations[MAX_ITERS - 1] = true;
    assert_eq!(feed(&observations), Seen::Escaped(MAX_ITERS - 1));
}

#[test]
fn step_past_the_budget_cannot_escape() {
    let mut observations = quiet(MAX_ITERS + 1);
    observations[0] = true;
    observations[1] = true;
    observations[2] = true;
    observations[MAX_ITERS] = true;
    assert_eq!(feed(&observations), Seen::Inside);
}

#[test]
fn runaway_orbit_escapes_right_after_the_grace_steps() {
    assert_eq!(feed(&vec![true; MAX_ITERS]), Seen::Escaped(POST_ESCAPE_ITERATIONS + 1));
}

#[test]
fn escape_index_stays_below_the_budget() {
    for first in 0..MAX_ITERS + 5 {
        let mut observations = quiet(first);
        observations.extend_from_slice(&[true; 4]);
        observations.extend_from_slice(&quiet(MAX_ITERS));
        match feed(&observations) {
            Seen::Escaped(i) => {
                assert_eq!(i, first + 3);
                assert!(i < MAX_ITERS);
            }
            Seen::Inside => assert!(first + 3 >= MAX_ITERS),
            Seen::Pending(_) => panic!("undecided after the budget"),
        }
    }
}
