use request_services::info::State;
use request_services::notification_bar::notify_flow::{
    notify_type_of, progress_interval_check, GroupProgress, NotifyType,
};
use request_services::notification_bar::progress_size::{progress_size, Unit};
use request_services::notification_bar::typology::{progress_percentage, ProgressCircle};

#[test]
fn sizes_in_english() {
    assert_eq!(progress_size(0, "en"), "0 B");
    assert_eq!(progress_size(1023, "en"), "1023 B");
    assert_eq!(progress_size(1024, "en"), "1.00 KB");
    assert_eq!(progress_size(1536, "en"), "1.50 KB");
    assert_eq!(progress_size(1025, "en"), "1.00 KB");
    assert_eq!(progress_size(1_048_576, "en"), "1.00 MB");
    assert_eq!(progress_size(5 * 1_073_741_824, "en"), "5.00 GB");
    assert_eq!(progress_size(2000 * 1_073_741_824, "en"), "2000.00 GB");
}

#[test]
fn sizes_in_other_languages() {
    // no space before the unit and a point for decimals by default
    assert_eq!(progress_size(1536, "zh-Hans"), "1.50KB");
    // Finnish: space separator, decimal comma, T units
    assert_eq!(progress_size(1536, "fi"), "1,50 KT");
    assert_eq!(progress_size(2000 * 1_073_741_824, "fi"), "2 000,00 GT");
    // Hindi: comma separator
    assert_eq!(progress_size(1023, "hi"), "1,023 B");
    assert_eq!(progress_size(1_234_567 * 1_073_741_824, "hi"), "1,234,567.00 GB");
    // Dutch: decimal comma and a space
    assert_eq!(progress_size(3 * 1_048_576 + 524_288, "nl"), "3,50 MB");
    assert_eq!(Unit::KiloBytes.as_str("fi"), "KT");
    assert_eq!(Unit::GigaBytes.as_str("en"), "GB");
}

#[test]
fn sizes_match_float_formatting() {
    for current in [1u64, 1000, 1024, 1100, 5000, 1_000_000, 123_456_789, 9_999_999_999] {
        let (size, unit) = match current {
            0..=1023 => (current as f64, "B"),
            1024..=1_048_575 => (current as f64 / 1024.0, "KB"),
            1_048_576..=1_073_741_823 => (current as f64 / 1_048_576.0, "MB"),
            _ => (current as f64 / 1_073_741_824.0, "GB"),
        };
        let expected = if unit == "B" {
            format!("{} {}", size.trunc() as u64, unit)
        } else {
            format!("{}.{:02} {}", size.trunc() as u64, (size.fract() * 100.0).floor(), unit)
        };
        assert_eq!(progress_size(current, "en"), expected, "{}", current);
    }
}

#[test]
fn percentages() {
    assert_eq!(progress_percentage(0, 0), "100%");
    assert_eq!(progress_percentage(1, 3), "33.33%");
    assert_eq!(progress_percentage(2, 3), "66.66%");
    assert_eq!(progress_percentage(50, 100), "50.00%");
    assert_eq!(progress_percentage(100, 100), "100.00%");
}

#[test]
fn progress_circles() {
    let c = ProgressCircle::open(10, 20);
    assert!(c.open);
    assert_eq!((c.current, c.total), (10, 20));
    let big = ProgressCircle::open(1 << 32, 1 << 33);
    assert!(big.total <= i32::MAX as u64);
    assert_eq!(big.current * 2, big.total);
    // a current value too large on its own is halved with the total
    let c = ProgressCircle::open(1 << 32, 10);
    assert!(c.current <= i32::MAX as u64);
    assert_eq!((c.current, c.total), (1 << 30, 2));
    let closed = ProgressCircle::close();
    assert!(!closed.open);
}

#[test]
fn group_progress_counts() {
    let mut g = GroupProgress::new();
    assert!(g.is_empty());
    g.update_task_progress(1, 100);
    g.update_task_progress(2, 50);
    g.update_task_progress(1, 150);
    assert_eq!(g.processed(), 200);
    g.update_task_state(1, State::Running);
    g.update_task_state(2, State::Running);
    assert_eq!(g.total(), 2);
    assert!(!g.is_finish());
    g.update_task_state(1, State::Completed);
    g.update_task_state(2, State::Failed);
    assert_eq!((g.successful(), g.failed()), (1, 1));
    assert!(g.is_finish());
    // a failed task that turns to completed moves between the counts
    g.update_task_state(2, State::Completed);
    assert_eq!((g.successful(), g.failed()), (2, 0));
    // a finished task that runs again leaves its count
    g.update_task_state(2, State::Running);
    assert_eq!((g.successful(), g.failed()), (1, 0));
    assert!(!g.is_finish());
    // removing it while it runs leaves the finished one
    g.remove_unfinished_task(2);
    assert_eq!(g.total(), 1);
    assert!(g.is_finish());
    // a finished task is not removed
    g.remove_unfinished_task(1);
    assert_eq!(g.total(), 1);
}

#[test]
fn leaving_a_finished_state_uncounts_the_task() {
    let mut g = GroupProgress::new();
    g.update_task_state(1, State::Completed);
    g.update_task_state(1, State::Running);
    assert_eq!(g.successful(), 0);
    assert!(!g.is_finish());
    g.update_task_state(1, State::Failed);
    g.update_task_state(1, State::Failed);
    assert_eq!((g.successful(), g.failed()), (0, 1));
    assert!(g.is_finish());
}

#[test]
fn notification_intervals_and_types() {
    assert_eq!(notify_type_of(Some(4)), NotifyType::Group(4));
    assert_eq!(notify_type_of(None), NotifyType::Task);
    let (due, _) = progress_interval_check(None, 1000);
    assert!(due);
    let (due, _) = progress_interval_check(Some(1000), 1200);
    assert!(!due);
    let (due, _) = progress_interval_check(Some(1000), 1500);
    assert!(due);
}

#[test]
fn group_progress_from_records() {
    let mut g = GroupProgress::new();
    g.absorb_record(1, Some(10), Some(State::Running.repr()));
    g.absorb_record(2, None, Some(State::Running.repr()));
    g.absorb_record(3, Some(5), None);
    g.absorb_record(4, Some(7), Some(State::Removed.repr()));
    assert_eq!(g.total(), 1);
    assert_eq!(g.processed(), 10);
    g.absorb_record(1, Some(30), Some(State::Completed.repr()));
    assert_eq!(g.processed(), 30);
    assert_eq!(g.successful(), 1);
    assert!(g.is_finish());
}
