use mulstant::{Mulstant, TimeSpan};

fn sum_of(result: &mulstant::MulstantResult) -> u128 {
    let mut sum: u128 = 0;
    for record in &result.records {
        sum += record.duration.as_nanos();
    }
    sum
}

#[test]
fn two_checkpoints_end_to_end() {
    let mut timer = Mulstant::new();
    timer.record_at("a", TimeSpan::from_millis(50));
    timer.record_at("b", TimeSpan::from_millis(80));
    let result = timer.finalize_at(TimeSpan::from_millis(80));
    assert_eq!(result.records.len(), 2);
    assert_eq!(result.records[0].name, "a");
    assert_eq!(result.records[0].duration, TimeSpan::from_millis(50));
    assert_eq!(result.records[1].name, "b");
    assert_eq!(result.records[1].duration, TimeSpan::from_millis(30));
    assert_eq!(result.total_duration, TimeSpan::from_millis(80));
    assert_eq!(result.summary(), "a: 50.00ms\nb: 30.00ms\nTotal Duration: 80.00ms\n");
}

#[test]
fn no_checkpoint_at_all() {
    let result = Mulstant::new().finalize_at(TimeSpan::zero());
    assert!(result.records.is_empty());
    assert_eq!(result.total_duration, TimeSpan::zero());
    assert_eq!(result.summary(), "Total Duration: 0.00ns\n");
}

#[test]
fn no_checkpoint_on_the_running_clock() {
    let result = Mulstant::new().finalize();
    assert!(result.records.is_empty());
    assert!(result.total_duration < TimeSpan::from_secs(5));
    let summary = result.summary();
    assert!(summary.starts_with("Total Duration: "));
    assert!(summary.ends_with("s\n"));
    assert_eq!(summary.lines().count(), 1);
}

#[test]
fn one_record_for_each_checkpoint() {
    let names = ["first", "", "third", "third", "fifth"];
    let mut timer = Mulstant::new();
    for name in names {
        timer.record(name);
    }
    let result = timer.finalize();
    assert_eq!(result.records.len(), names.len());
    for (record, name) in result.records.iter().zip(names) {
        assert_eq!(record.name, name);
    }
}

#[test]
fn total_covers_the_records_on_the_running_clock() {
    let mut timer = Mulstant::new();
    let mut busy: u64 = 0;
    for name in ["a", "b", "c"] {
        for step in 0..20_000u64 {
            busy = busy.wrapping_mul(31).wrapping_add(step);
        }
        timer.record(name);
    }
    assert!(busy != 1);
    let result = timer.finalize();
    assert_eq!(result.records.len(), 3);
    assert!(result.total_duration.as_nanos() >= sum_of(&result));
    assert!(result.total_duration > TimeSpan::zero());
}

#[test]
fn time_after_the_last_checkpoint_counts_for_the_total_only() {
    let mut timer = Mulstant::new();
    timer.record_at("load", TimeSpan::from_millis(10));
    timer.record_at("work", TimeSpan::from_millis(25));
    let result = timer.finalize_at(TimeSpan::from_millis(40));
    assert_eq!(sum_of(&result), 25_000_000);
    assert_eq!(result.total_duration.as_nanos(), 40_000_000);
}

#[test]
fn checkpoints_without_time_between_them() {
    let mut timer = Mulstant::new();
    timer.record_at("a", TimeSpan::zero());
    timer.record_at("b", TimeSpan::from_micros(3));
    timer.record_at("c", TimeSpan::from_micros(3));
    let result = timer.finalize_at(TimeSpan::from_micros(3));
    assert_eq!(result.records[0].duration, TimeSpan::zero());
    assert_eq!(result.records[1].duration, TimeSpan::from_micros(3));
    assert_eq!(result.records[2].duration, TimeSpan::zero());
    assert_eq!(
        result.summary(),
        "a: 0.00ns\nb: 3.00\u{b5}s\nc: 0.00ns\nTotal Duration: 3.00\u{b5}s\n"
    );
}

#[test]
fn a_clock_that_ran_backwards_records_nothing() {
    let mut timer = Mulstant::new();
    timer.record_at("a", TimeSpan::from_millis(100));
    timer.record_at("b", TimeSpan::from_millis(50));
    timer.record_at("c", TimeSpan::from_millis(70));
    let result = timer.finalize_at(TimeSpan::from_millis(60));
    assert_eq!(result.records[0].duration, TimeSpan::from_millis(100));
    assert_eq!(result.records[1].duration, TimeSpan::zero());
    assert_eq!(result.records[2].duration, TimeSpan::from_millis(20));
    assert_eq!(result.total_duration, TimeSpan::from_millis(60));
}

#[test]
fn a_clone_goes_its_own_way() {
    let mut timer = Mulstant::new();
    timer.record_at("a", TimeSpan::from_millis(1));
    let mut copy = timer.clone();
    assert_eq!(timer, copy);
    copy.record_at("b", TimeSpan::from_millis(2));
    assert_ne!(timer, copy);
    let first = timer.finalize_at(TimeSpan::from_millis(3));
    let second = copy.finalize_at(TimeSpan::from_millis(3));
    assert_eq!(first.records.len(), 1);
    assert_eq!(second.records.len(), 2);
    assert_eq!(second.records[0], first.records[0]);
}
