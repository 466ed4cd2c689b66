use lockstep::barrier::{LOCKSTEP, LOCKSTEP_END, LOCKSTEP_START};
use lockstep::queue::{InputQueue, StaleInsertion};
use lockstep::snapshot::CurrentInputs;
use lockstep::step::Step;
use lockstep::tick::Tick;

#[test]
fn tick_starts_at_zero_and_advances_by_one() {
    let mut tick = Tick::default();
    assert_eq!(tick, Tick(0));
    tick.advance();
    assert_eq!(tick, Tick(1));
    let mut late = Tick(u64::MAX - 1);
    late.advance();
    assert_eq!(late.0, u64::MAX);
}

#[test]
fn step_appends_and_counts_distinct_players() {
    let mut step: Step<&'static str, u8> = Step::default();
    assert_eq!(step.player_count(), 0);
    assert!(step.is_complete(0));
    step.submit("ann", 1);
    step.submit("bob", 2);
    step.submit("ann", 3);
    assert_eq!(step.player_count(), 2);
    assert!(step.is_complete(2));
    assert!(!step.is_complete(1));
    assert!(!step.is_complete(3));
    assert_eq!(step.inputs.get("ann"), Some(&vec![1, 3]));
    assert_eq!(step.inputs.get("bob"), Some(&vec![2]));
}

#[test]
fn capture_copies_the_step_and_is_not_bound_to_it() {
    let mut step: Step<u16, String> = Step::default();
    step.submit(4, String::from("north"));
    step.submit(4, String::from("east"));
    step.submit(9, String::from("wait"));
    let snapshot = CurrentInputs::capture(&step);
    step.submit(4, String::from("south"));
    step.submit(11, String::from("late"));
    assert_eq!(
        snapshot.actions(&4),
        Some(&vec![String::from("north"), String::from("east")])
    );
    assert_eq!(snapshot.actions(&9), Some(&vec![String::from("wait")]));
    assert_eq!(snapshot.actions(&11), None);
    assert_eq!(snapshot.0.len(), 2);
    let empty: CurrentInputs<u16, String> = CurrentInputs::default();
    assert_eq!(empty.actions(&4), None);
}

#[test]
fn queue_retires_the_oldest_tick_only_once() {
    let mut queue: InputQueue<u8, u8> = InputQueue::new();
    queue.insert(Tick(0), 1, 1).unwrap();
    queue.insert(Tick(1), 1, 2).unwrap();
    assert_eq!(queue.oldest_open_tick(), Tick(0));
    queue.retire(Tick(0));
    assert_eq!(queue.oldest_open_tick(), Tick(1));
    assert!(queue.get(Tick(0)).is_none());
    assert_eq!(queue.get(Tick(1)).unwrap().inputs.get(&1), Some(&vec![2]));
    assert_eq!(
        queue.insert(Tick(0), 1, 3),
        Err(StaleInsertion { tick: Tick(0), oldest_open: Tick(1) })
    );
    assert!(queue.get(Tick(0)).is_none());
    assert_eq!(queue.insert(Tick(1), 1, 4), Ok(()));
    assert_eq!(queue.get(Tick(1)).unwrap().inputs.get(&1), Some(&vec![2, 4]));
    queue.retire(Tick(1));
    assert!(queue.get(Tick(1)).is_none());
    assert_eq!(queue.oldest_open_tick(), Tick(2));
}

#[test]
fn default_queue_is_empty_and_open_from_tick_zero() {
    let mut queue: InputQueue<u8, u8> = InputQueue::default();
    assert_eq!(queue.oldest_open_tick(), Tick(0));
    assert!(queue.get(Tick(0)).is_none());
    assert_eq!(queue.insert(Tick(0), 0, 0), Ok(()));
    assert_eq!(queue.insert(Tick(u64::MAX), 0, 0), Ok(()));
    assert!(queue.get(Tick(u64::MAX)).is_some());
}

#[test]
fn schedule_names_are_distinct() {
    assert_eq!(LOCKSTEP, "lockstep");
    assert_eq!(LOCKSTEP_START, "lockstep_start");
    assert_eq!(LOCKSTEP_END, "lockstep_end");
    assert_ne!(LOCKSTEP_START, LOCKSTEP_END);
}
