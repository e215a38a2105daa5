use meow::report::status_two;
use meow::series::avgu;
use meow::sweep::{
    compare_sweep_strings, compare_sweep_u8vecs, report_step, sweep_header, sweep_sizes,
    trial_on_bytes, trial_on_text, InvalidSweepRangeError, Sweep, SweepStep, STEPS, TRIALS,
};
use std::cell::RefCell;

#[test]
fn sweep_sizes_of_ten_to_twenty() {
    assert_eq!(
        sweep_sizes(10, 20),
        Ok(vec![10, 11, 12, 13, 14, 15, 16, 17, 18, 19])
    );
}

#[test]
fn sweep_sizes_of_zero_to_hundred() {
    assert_eq!(
        sweep_sizes(0, 100),
        Ok(vec![0, 10, 20, 30, 40, 50, 60, 70, 80, 90])
    );
}

#[test]
fn sweep_sizes_drop_the_remainder_of_the_increment() {
    assert_eq!(
        sweep_sizes(5, 30),
        Ok(vec![5, 7, 9, 11, 13, 15, 17, 19, 21, 23])
    );
}

#[test]
fn sweep_sizes_at_the_top_of_the_range() {
    let top: usize = usize::MAX;
    let sizes: Vec<usize> = sweep_sizes(top - 10, top).unwrap();
    assert_eq!(sizes.len(), 10);
    assert_eq!(sizes[0], top - 10);
    assert_eq!(sizes[9], top - 1);
    let wide: Vec<usize> = sweep_sizes(0, top).unwrap();
    assert_eq!(wide[9], 9 * (top / 10));
}

#[test]
fn sweep_sizes_refuse_a_narrow_range() {
    assert_eq!(
        sweep_sizes(0, 9),
        Err(InvalidSweepRangeError { min_size: 0, max_size: 9 })
    );
    assert_eq!(
        sweep_sizes(7, 7),
        Err(InvalidSweepRangeError { min_size: 7, max_size: 7 })
    );
    assert!(sweep_sizes(0, 10).is_ok());
}

#[test]
fn sweep_sizes_refuse_an_empty_range() {
    assert_eq!(
        sweep_sizes(20, 10),
        Err(InvalidSweepRangeError { min_size: 20, max_size: 10 })
    );
    assert_eq!(
        sweep_sizes(usize::MAX, 0),
        Err(InvalidSweepRangeError { min_size: usize::MAX, max_size: 0 })
    );
}

#[test]
fn sweep_header_names_range_and_trials() {
    assert_eq!(
        sweep_header("strings", 10, 20),
        "meow: Sweeping across strings of 10 to 20 (5 tests per step)..."
    );
    assert_eq!(
        sweep_header("[u8]", 0, 100),
        "meow: Sweeping across [u8] of 0 to 100 (5 tests per step)..."
    );
}

#[test]
fn report_step_of_given_series() {
    let step: SweepStep = report_step("copy", 30, vec![1_000_000, 3_000_000], vec![250_000, 250_001]);
    assert_eq!(step.size, 30);
    assert_eq!(step.times_a, vec![1_000_000, 3_000_000]);
    assert_eq!(step.times_b, vec![250_000, 250_001]);
    assert_eq!(step.line, "meow: copy (30):\t2.000 ms, 0.250 ms");
}

#[test]
fn trial_on_text_hands_one_text_to_both() {
    let seen: RefCell<Vec<(char, String)>> = RefCell::new(Vec::new());
    let first = |text: String| seen.borrow_mut().push(('a', text));
    let second = |text: String| seen.borrow_mut().push(('b', text));
    let _times: (u64, u64) = trial_on_text(&first, &second, String::from("kitteh"));
    assert_eq!(
        *seen.borrow(),
        vec![('a', String::from("kitteh")), ('b', String::from("kitteh"))]
    );
}

#[test]
fn trial_on_bytes_hands_the_same_bytes_to_both() {
    let seen: RefCell<Vec<(char, Vec<u8>)>> = RefCell::new(Vec::new());
    let first = |bytes: Vec<u8>| seen.borrow_mut().push(('a', bytes));
    let second = |bytes: Vec<u8>| seen.borrow_mut().push(('b', bytes));
    let _times: (u64, u64) = trial_on_bytes(&first, &second, vec![1, 2, 3]);
    assert_eq!(*seen.borrow(), vec![('a', vec![1, 2, 3]), ('b', vec![1, 2, 3])]);
}

#[test]
fn sweep_strings_feeds_both_candidates_the_same_text() {
    let seen_a: RefCell<Vec<String>> = RefCell::new(Vec::new());
    let seen_b: RefCell<Vec<String>> = RefCell::new(Vec::new());
    let outcome = compare_sweep_strings(
        "probe",
        |text: String| seen_a.borrow_mut().push(text),
        |text: String| seen_b.borrow_mut().push(text),
        10,
        20,
    );
    assert!(outcome.is_ok());
    let seen_a: Vec<String> = seen_a.into_inner();
    let seen_b: Vec<String> = seen_b.into_inner();
    assert_eq!(seen_a.len(), 50);
    assert_eq!(seen_b.len(), 50);
    for index in 0..50 {
        assert_eq!(seen_a[index], seen_b[index]);
        assert_eq!(seen_a[index].len(), 10 + index / 5);
        assert!(seen_a[index].bytes().all(|b| b.is_ascii_alphanumeric()));
    }
    assert_ne!(seen_a[48], seen_a[49]);
}

#[test]
fn sweep_strings_of_ten_to_twenty_has_ten_steps() {
    let sweep: Sweep = compare_sweep_strings("len", |t: String| t.len(), |t: String| t.len(), 10, 20)
        .unwrap();
    assert_eq!(STEPS, 10);
    assert_eq!(TRIALS, 5);
    assert_eq!(
        sweep.header,
        "meow: Sweeping across strings of 10 to 20 (5 tests per step)..."
    );
    let sizes: Vec<usize> = sweep.steps.iter().map(|step| step.size).collect();
    assert_eq!(sizes, vec![10, 11, 12, 13, 14, 15, 16, 17, 18, 19]);
    for step in sweep.steps.iter() {
        assert_eq!(step.times_a.len(), 5);
        assert_eq!(step.times_b.len(), 5);
        let label: String = format!("len ({})", step.size);
        assert_eq!(
            step.line,
            status_two(&label, avgu(&step.times_a), avgu(&step.times_b))
        );
        assert!(step.line.starts_with(&format!("meow: len ({}):\t", step.size)));
    }
}

#[test]
fn sweep_strings_refuses_a_step_of_zero() {
    let calls: RefCell<u32> = RefCell::new(0);
    let outcome = compare_sweep_strings(
        "narrow",
        |_text: String| *calls.borrow_mut() += 1,
        |_text: String| *calls.borrow_mut() += 1,
        10,
        15,
    );
    assert_eq!(
        outcome.err(),
        Some(InvalidSweepRangeError { min_size: 10, max_size: 15 })
    );
    assert_eq!(*calls.borrow(), 0);
}

#[test]
fn sweep_strings_refuses_an_empty_range() {
    let outcome = compare_sweep_strings("empty", |t: String| t, |t: String| t, 20, 10);
    assert_eq!(
        outcome.err(),
        Some(InvalidSweepRangeError { min_size: 20, max_size: 10 })
    );
}

#[test]
fn sweep_bytes_copy_zero_to_hundred() {
    let started = std::time::Instant::now();
    let sweep: Sweep =
        compare_sweep_u8vecs("copy", |b: Vec<u8>| b, |b: Vec<u8>| b, 0, 100).unwrap();
    assert!(started.elapsed().as_secs() < 10);
    assert_eq!(
        sweep.header,
        "meow: Sweeping across [u8] of 0 to 100 (5 tests per step)..."
    );
    assert_eq!(sweep.steps.len(), 10);
    let sizes: Vec<usize> = sweep.steps.iter().map(|step| step.size).collect();
    assert_eq!(sizes, vec![0, 10, 20, 30, 40, 50, 60, 70, 80, 90]);
    for step in sweep.steps.iter() {
        assert!(step.line.starts_with(&format!("meow: copy ({}):\t", step.size)));
        assert!(step.line.ends_with(" ms"));
    }
}

#[test]
fn sweep_bytes_feeds_both_candidates_the_same_bytes() {
    let seen_a: RefCell<Vec<Vec<u8>>> = RefCell::new(Vec::new());
    let seen_b: RefCell<Vec<Vec<u8>>> = RefCell::new(Vec::new());
    let outcome = compare_sweep_u8vecs(
        "probe",
        |bytes: Vec<u8>| seen_a.borrow_mut().push(bytes),
        |bytes: Vec<u8>| seen_b.borrow_mut().push(bytes),
        40,
        140,
    );
    assert!(outcome.is_ok());
    let seen_a: Vec<Vec<u8>> = seen_a.into_inner();
    let seen_b: Vec<Vec<u8>> = seen_b.into_inner();
    assert_eq!(seen_a.len(), 50);
    assert_eq!(seen_b.len(), 50);
    for index in 0..50 {
        assert_eq!(seen_a[index], seen_b[index]);
        assert_eq!(seen_a[index].len(), 40 + 10 * (index / 5));
    }
    assert_ne!(seen_a[0], seen_a[1]);
}

#[test]
fn sweep_bytes_refuses_a_narrow_range() {
    let outcome = compare_sweep_u8vecs("narrow", |b: Vec<u8>| b, |b: Vec<u8>| b, 3, 12);
    assert_eq!(
        outcome.err(),
        Some(InvalidSweepRangeError { min_size: 3, max_size: 12 })
    );
}
