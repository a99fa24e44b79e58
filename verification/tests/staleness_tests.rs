use rstb_runner::staleness::outdated;

#[test]
fn no_output_at_all_is_stale() {
    assert!(outdated(&Vec::new(), &vec![5]));
    assert!(outdated(&Vec::new(), &vec![1, 2, 3]));
}

#[test]
fn missing_output_is_stale() {
    assert!(outdated(&vec![None], &vec![5]));
    assert!(outdated(&vec![None, None], &vec![0]));
}

#[test]
fn output_newer_than_all_inputs_is_fresh() {
    assert!(!outdated(&vec![Some(10)], &vec![5, 7]));
    assert!(!outdated(&vec![Some(100), Some(50)], &vec![49, 1]));
}

#[test]
fn output_older_than_some_input_is_stale() {
    assert!(outdated(&vec![Some(3)], &vec![5]));
    assert!(outdated(&vec![Some(10), Some(4)], &vec![5, 1]));
}

#[test]
fn equal_timestamps_are_stale() {
    assert!(outdated(&vec![Some(7)], &vec![5, 7]));
    assert!(outdated(&vec![Some(0)], &vec![0]));
}

#[test]
fn one_missing_output_among_existing_ones_is_ignored_for_the_minimum() {
    // The earliest existing output decides; a missing one does not make the
    // set unconditionally stale on its own when another output exists.
    assert!(!outdated(&vec![None, Some(10)], &vec![5]));
    assert!(outdated(&vec![None, Some(4)], &vec![5]));
}
