use rust_dsa::collector::collect;
use rust_dsa::collector::produce;
use rust_dsa::collector::CollectError;
use rust_dsa::collector::Collector;

#[test]
fn collect_zero_is_empty() {
    let values = collect(0).unwrap();
    assert_eq!(values, Vec::<u64>::new());
}

#[test]
fn collect_one_is_the_single_ordinal() {
    let values = collect(1).unwrap();
    assert_eq!(values, vec![0]);
}

#[test]
fn collect_ten_has_cardinality_ten() {
    let values = collect(10).unwrap();
    assert_eq!(values.len(), 10);
}

#[test]
fn collect_ten_yields_every_ordinal_once() {
    // Compare order-insensitively: no delivery order may be assumed.
    let mut values = collect(10).unwrap();
    values.sort();
    assert_eq!(values, vec![0, 1, 2, 3, 4, 5, 6, 7, 8, 9]);
}

#[test]
fn produce_returns_the_ordinal() {
    assert_eq!(produce(0), 0);
    assert_eq!(produce(7), 7);
}

#[test]
fn deliveries_are_kept_in_receipt_order() {
    let mut c = Collector::new(3);
    c.deliver(2);
    c.deliver(0);
    c.deliver(1);
    let values = c.finish().unwrap();
    assert_eq!(values, vec![2, 0, 1]);
    let mut sorted = values;
    sorted.sort();
    assert_eq!(sorted, vec![0, 1, 2]);
}

#[test]
fn task_failure_aborts_the_run() {
    let mut c = Collector::new(3);
    c.deliver(0);
    c.deliver(1);
    c.observe_failure(CollectError::TaskFailure);
    assert_eq!(c.finish(), Err(CollectError::TaskFailure));
}

#[test]
fn join_failure_aborts_the_run() {
    let mut c = Collector::new(2);
    c.deliver(0);
    c.observe_failure(CollectError::JoinFailure);
    assert_eq!(c.finish(), Err(CollectError::JoinFailure));
}

#[test]
fn a_short_run_is_never_passed_off_as_a_result() {
    let mut c = Collector::new(3);
    c.deliver(0);
    c.deliver(1);
    assert_eq!(c.finish(), Err(CollectError::TaskFailure));
}

#[test]
fn collector_reports_its_progress() {
    let mut c = Collector::new(2);
    assert_eq!(c.expected_count(), 2);
    assert_eq!(c.received_len(), 0);
    assert!(!c.has_failure());
    c.deliver(9);
    assert_eq!(c.received_len(), 1);
    c.observe_failure(CollectError::TaskFailure);
    assert!(c.has_failure());
}
