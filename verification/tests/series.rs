use pas::series::{field_stats, stack_levels, time_range, StackedSeries};
use pas::wait_types::PgWaitTypes;

#[test]
fn stack_levels_sum_each_field_and_those_after_it() {
    assert_eq!(stack_levels(&vec![1, 2, 3]), vec![6, 5, 3]);
    assert_eq!(stack_levels(&vec![]), Vec::<usize>::new());
}

#[test]
fn field_stats_give_min_max_last_sum() {
    let samples = vec![vec![3, 0], vec![1, 5], vec![2, 4]];
    let s = field_stats(&samples, 0);
    assert_eq!((s.min, s.max, s.last, s.sum), (1, 3, 2, 6));
    let s = field_stats(&samples, 1);
    assert_eq!((s.min, s.max, s.last, s.sum), (0, 5, 4, 9));
}

#[test]
fn stacked_series_of_wait_types() {
    let a = PgWaitTypes { on_cpu: 2, activity: 0, buffer_pin: 0, client: 1, extension: 0, io: 3, ipc: 0, lock: 0, lwlock: 1, timeout: 0 };
    let b = PgWaitTypes { on_cpu: 1, activity: 1, buffer_pin: 0, client: 0, extension: 0, io: 0, ipc: 0, lock: 2, lwlock: 0, timeout: 0 };
    // activity, buffer_pin, client, extension, timeout, ipc, lwlock, lock, io, on_cpu
    assert_eq!(a.values(), vec![0, 0, 1, 0, 0, 0, 1, 0, 3, 2]);
    let samples = vec![a.values(), b.values()];
    let s = StackedSeries::from_samples(&samples, 10);
    assert_eq!(s.stacked[0][0], 7);
    assert_eq!(s.stacked[0][9], 2);
    assert_eq!(s.stacked[1], vec![4, 3, 3, 3, 3, 3, 3, 3, 1, 1]);
    assert_eq!(s.high_value, 7);
    assert_eq!(s.stats[9].min, 1);
    assert_eq!(s.stats[9].max, 2);
    assert_eq!(s.stats[9].last, 1);
    assert_eq!(s.stats[9].sum, 3);
}

#[test]
fn time_range_spans_the_samples() {
    assert_eq!(time_range(&vec![]), None);
    assert_eq!(time_range(&vec![7]), Some((7, 7)));
    assert_eq!(time_range(&vec![30, 10, 20, -5, 25]), Some((-5, 30)));
}
