use meow::compare::{
    compare, compare_repeatedly, compare_several, measure_both, report_means, Comparison,
    REPETITIONS,
};
use meow::report::status_two;
use meow::series::avgu;
use std::cell::{Cell, RefCell};

fn is_millis(shown: &str) -> bool {
    match shown.strip_suffix(" ms").and_then(|m| m.split_once('.')) {
        Some((whole, fraction)) => {
            !whole.is_empty()
                && whole.bytes().all(|b| b.is_ascii_digit())
                && fraction.len() == 3
                && fraction.bytes().all(|b| b.is_ascii_digit())
        }
        None => false,
    }
}

#[test]
fn compare_noop_reports_one_line() {
    let line: String = compare("noop", || 1, || 1);
    assert_eq!(line.lines().count(), 1);
    assert!(line.contains("noop"));
    let shown: &str = line.strip_prefix("meow: noop:\t").unwrap();
    let (first, second) = shown.split_once(", ").unwrap();
    assert!(is_millis(first));
    assert!(is_millis(second));
}

#[test]
fn compare_calls_each_candidate_once() {
    let order: RefCell<Vec<char>> = RefCell::new(Vec::new());
    let _line: String = compare("once", || order.borrow_mut().push('a'), || {
        order.borrow_mut().push('b')
    });
    assert_eq!(*order.borrow(), vec!['a', 'b']);
}

#[test]
fn measure_both_times_first_then_second() {
    let order: RefCell<Vec<char>> = RefCell::new(Vec::new());
    let first = || order.borrow_mut().push('a');
    let second = || order.borrow_mut().push('b');
    let times: (u64, u64) = measure_both(&first, &second);
    assert_eq!(*order.borrow(), vec!['a', 'b']);
    assert!(times.0 < 1_000_000_000 && times.1 < 1_000_000_000);
}

#[test]
fn compare_several_calls_each_candidate_ten_times() {
    let calls_a: Cell<u32> = Cell::new(0);
    let calls_b: Cell<u32> = Cell::new(0);
    let outcome: Comparison = compare_several(
        "count",
        || calls_a.set(calls_a.get() + 1),
        || calls_b.set(calls_b.get() + 1),
    );
    assert_eq!(calls_a.get(), 10);
    assert_eq!(calls_b.get(), 10);
    assert_eq!(REPETITIONS, 10);
    assert_eq!(outcome.times_a.len(), 10);
    assert_eq!(outcome.times_b.len(), 10);
}

#[test]
fn compare_several_alternates_the_candidates() {
    let order: RefCell<String> = RefCell::new(String::new());
    let _outcome: Comparison = compare_several("order", || order.borrow_mut().push('a'), || {
        order.borrow_mut().push('b')
    });
    assert_eq!(*order.borrow(), "abababababababababab");
}

#[test]
fn compare_several_reports_the_means() {
    let outcome: Comparison = compare_several("sum", || 1 + 1, || 2 + 2);
    let shown: &str = outcome.line.strip_prefix("meow: sum (avg):\t").unwrap();
    let (first, second) = shown.split_once(", ").unwrap();
    assert!(is_millis(first));
    assert!(is_millis(second));
    assert_eq!(
        outcome.line,
        status_two("sum (avg)", avgu(&outcome.times_a), avgu(&outcome.times_b))
    );
}

#[test]
fn compare_repeatedly_runs_as_often_as_asked() {
    for repetitions in [1usize, 3, 25] {
        let calls_a: Cell<usize> = Cell::new(0);
        let calls_b: Cell<usize> = Cell::new(0);
        let outcome: Comparison = compare_repeatedly(
            "count",
            || calls_a.set(calls_a.get() + 1),
            || calls_b.set(calls_b.get() + 1),
            repetitions,
        );
        assert_eq!(calls_a.get(), repetitions);
        assert_eq!(calls_b.get(), repetitions);
        assert_eq!(outcome.times_a.len(), repetitions);
        assert_eq!(outcome.times_b.len(), repetitions);
    }
}

#[test]
fn report_means_of_given_series() {
    let outcome: Comparison = report_means(
        "fixed",
        vec![1_000_000, 2_000_000, 3_000_001],
        vec![500_000, 500_000, 500_000],
    );
    assert_eq!(outcome.line, "meow: fixed (avg):\t2.000 ms, 0.500 ms");
    assert_eq!(outcome.times_a, vec![1_000_000, 2_000_000, 3_000_001]);
    assert_eq!(outcome.times_b, vec![500_000, 500_000, 500_000]);
}
