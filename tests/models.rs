use chrono::Utc;
use todo_tracker::models::{Task, Timestamp, MAX_NANOS};

fn now() -> Timestamp {
    let t = Utc::now();
    Timestamp::from_parts(t.timestamp(), t.timestamp_subsec_nanos()).unwrap()
}

#[test]
fn test_create_task() {
    let title = "Test task".to_string();
    let task = Task::new(title.clone());

    assert_eq!(task.title, title);
    assert!(!task.completed);
    assert!(task.created_at <= now());
}

#[test]
fn new_task_reads_the_clock() {
    let before = now();
    let task = Task::new("water plants".to_string());
    let after = now();
    assert!(before <= task.created_at);
    assert!(task.created_at.is_not_after(&after));
    assert!(task.created_at.secs > 1_600_000_000);
}

#[test]
fn new_task_with_empty_title() {
    let task = Task::new(String::new());
    assert_eq!(task.title, "");
    assert!(!task.completed);
}

#[test]
fn new_at_keeps_the_given_time() {
    let at = Timestamp::from_parts(1_431_648_000, 250).unwrap();
    let task = Task::new_at("pay rent".to_string(), at);
    assert_eq!(task.title, "pay rent");
    assert!(!task.completed);
    assert_eq!(task.created_at, Timestamp { secs: 1_431_648_000, nanos: 250 });
}

#[test]
fn duplicate_copies_every_field() {
    let mut task = Task::new_at("a".to_string(), Timestamp { secs: 7, nanos: 9 });
    task.completed = true;
    let copy = task.duplicate();
    assert_eq!(copy.title, "a");
    assert!(copy.completed);
    assert_eq!(copy.created_at, Timestamp { secs: 7, nanos: 9 });
}

#[test]
fn from_parts_bounds_the_fraction() {
    assert_eq!(Timestamp::from_parts(-5, 0), Some(Timestamp { secs: -5, nanos: 0 }));
    assert_eq!(
        Timestamp::from_parts(60, MAX_NANOS),
        Some(Timestamp { secs: 60, nanos: 1_999_999_999 })
    );
    assert_eq!(Timestamp::from_parts(60, 2_000_000_000), None);
    assert_eq!(Timestamp::from_parts(0, u32::MAX), None);
}

#[test]
fn timestamps_order_by_seconds_then_nanos() {
    let a = Timestamp { secs: 10, nanos: 999 };
    let b = Timestamp { secs: 11, nanos: 0 };
    let c = Timestamp { secs: 11, nanos: 5 };
    assert!(a.is_not_after(&b));
    assert!(!b.is_not_after(&a));
    assert!(b.is_not_after(&c));
    assert!(!c.is_not_after(&b));
    assert!(c.is_not_after(&c));
}
