use pre_authorized_debit::compute_current_cycle;
use pre_authorized_debit::CustomProgramError;

#[test]
fn cycle_one_starts_at_activation() {
    // Boundary: at the activation moment the cycle index is 1.
    assert_eq!(compute_current_cycle(100, 100, 1), Ok(1));
}

#[test]
fn cycle_advances_each_period() {
    assert_eq!(compute_current_cycle(101, 100, 1), Ok(2));
    assert_eq!(compute_current_cycle(102, 100, 1), Ok(3));
}

#[test]
fn cycle_with_longer_period() {
    assert_eq!(compute_current_cycle(98, 0, 33), Ok(3));
    assert_eq!(compute_current_cycle(100, 0, 33), Ok(4));
}

#[test]
fn cycle_with_negative_activation() {
    assert_eq!(compute_current_cycle(100, -100, 33), Ok(7));
}

#[test]
fn cycle_at_largest_elapsed_time() {
    let expected: u64 = u64::try_from(i64::MAX).unwrap() + 1;
    assert_eq!(compute_current_cycle(i64::MAX, 0, 1), Ok(expected));
}

#[test]
fn cycle_before_activation_fails() {
    // Boundary: a current time before the activation moment is rejected.
    assert_eq!(
        compute_current_cycle(0, 100, 1),
        Err(CustomProgramError::InvalidTimestamp)
    );
    assert_eq!(
        compute_current_cycle(-1, 100, 1),
        Err(CustomProgramError::InvalidTimestamp)
    );
    assert_eq!(
        compute_current_cycle(99, 100, 1),
        Err(CustomProgramError::InvalidTimestamp)
    );
}

#[test]
fn cycle_with_unrepresentable_elapsed_time_fails() {
    // i64::MAX - i64::MIN does not fit in an i64.
    assert_eq!(
        compute_current_cycle(i64::MAX, i64::MIN, 1),
        Err(CustomProgramError::InvalidTimestamp)
    );
    assert_eq!(
        compute_current_cycle(i64::MAX, -1, 1),
        Err(CustomProgramError::InvalidTimestamp)
    );
}
