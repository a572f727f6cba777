use crab_dashboard::chart::value_segments_indexed;
use crab_dashboard::session::{build_backend_distribution, build_timeline_buckets, BackendCount};

fn row(name: &str, count: u64) -> BackendCount {
    BackendCount { backend_name: name.to_string(), request_count: count }
}

#[test]
fn backend_distribution_is_stably_sorted_by_count() {
    let rows = vec![row("a", 5), row("b", 2), row("c", 5), row("d", 1)];
    let (names, counts) = build_backend_distribution(&rows);
    assert_eq!(names, vec!["d", "b", "a", "c"]);
    assert_eq!(counts, vec![1, 2, 5, 5]);
    let (names, counts) = build_backend_distribution(&[]);
    assert!(names.is_empty() && counts.is_empty());
}

#[test]
fn timeline_buckets_are_keyed_by_minute_label() {
    let (labels, counts) = build_timeline_buckets(&[0, 30_000, 65_000, 600_000, 120_000]);
    assert_eq!(labels, vec!["t+0m", "t+10m", "t+1m", "t+2m"]);
    assert_eq!(counts, vec![2, 1, 1, 1]);
    assert_eq!(counts.iter().sum::<u64>(), 5);
    let (labels, counts) = build_timeline_buckets(&[]);
    assert!(labels.is_empty() && counts.is_empty());
}

#[test]
fn value_segments_split_at_gaps() {
    let values = [0.0, 1.5, 2.5, -1.0, 3.0, 0.0, 4.0];
    let keep: Vec<bool> = values.iter().map(|v: &f64| v.is_finite() && *v > 0.0).collect();
    let segs = value_segments_indexed(&values, &keep);
    assert_eq!(segs, vec![(1, vec![1.5, 2.5]), (4, vec![3.0]), (6, vec![4.0])]);
    let none: Vec<(usize, Vec<f64>)> = vec![];
    assert_eq!(value_segments_indexed(&[0.0f64, -2.0], &[false, false]), none);
    assert_eq!(
        value_segments_indexed(&[7u32, 8, 9], &[true, true, true]),
        vec![(0, vec![7u32, 8, 9])]
    );
}
