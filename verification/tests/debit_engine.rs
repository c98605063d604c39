use pre_authorized_debit::CustomProgramError;
use pre_authorized_debit::PreAuthorization;
use pre_authorized_debit::PreAuthorizationVariant;

fn one_time_grant(amount_authorized: u64, expiry: i64, amount_debited: u64) -> PreAuthorization {
    PreAuthorization {
        paused: false,
        token_account: 1,
        variant: PreAuthorizationVariant::OneTime {
            amount_authorized,
            expiry_unix_timestamp: expiry,
            amount_debited,
        },
        debit_authority: 2,
        activation_unix_timestamp: 0,
    }
}

fn recurring_grant(
    period: u64,
    authorized: u64,
    last_spent: u64,
    total: u64,
    last_cycle: u64,
    num_cycles: Option<u64>,
    reset: bool,
) -> PreAuthorization {
    PreAuthorization {
        paused: false,
        token_account: 1,
        variant: PreAuthorizationVariant::Recurring {
            repeat_frequency_seconds: period,
            recurring_amount_authorized: authorized,
            amount_debited_last_cycle: last_spent,
            amount_debited_total: total,
            last_debited_cycle: last_cycle,
            num_cycles,
            reset_every_cycle: reset,
        },
        debit_authority: 2,
        activation_unix_timestamp: 0,
    }
}

fn debited(pa: &PreAuthorization) -> u64 {
    match pa.variant {
        PreAuthorizationVariant::OneTime { amount_debited, .. } => amount_debited,
        PreAuthorizationVariant::Recurring {
            amount_debited_total,
            ..
        } => amount_debited_total,
    }
}

#[test]
fn one_time_partial_then_excessive_debit() {
    // Scenario: 100 authorized, 40 leaves, then 61 exceeds the remaining 60.
    let mut pa = one_time_grant(100, 1_000_000, 0);
    assert_eq!(pa.attempt_debit(40, 10), Ok(()));
    assert_eq!(debited(&pa), 40);
    assert_eq!(
        pa.attempt_debit(61, 11),
        Err(CustomProgramError::CannotDebitMoreThanAvailable)
    );
    assert_eq!(debited(&pa), 40);
    assert_eq!(pa.attempt_debit(60, 12), Ok(()));
    assert_eq!(debited(&pa), 100);
}

#[test]
fn one_time_expired_grant_is_not_active() {
    let mut pa = one_time_grant(100, 50, 0);
    assert_eq!(
        pa.attempt_debit(1, 50),
        Err(CustomProgramError::PreAuthorizationNotActive)
    );
    // strictly before the expiry moment the grant is live
    let mut pa2 = one_time_grant(100, 50, 0);
    assert_eq!(pa2.attempt_debit(1, 49), Ok(()));
}

#[test]
fn debit_before_activation_is_not_active() {
    let mut pa = one_time_grant(100, 1_000_000, 0);
    pa.activation_unix_timestamp = 500;
    assert_eq!(
        pa.attempt_debit(1, 499),
        Err(CustomProgramError::PreAuthorizationNotActive)
    );
    assert_eq!(pa.attempt_debit(1, 500), Ok(()));
}

#[test]
fn cumulative_budget_accrues_to_cycle_five() {
    // Scenario: 100 per cycle, activation at 0, period 1 s; at cycle 5 with
    // nothing spent the full 500 is available.
    let mut pa = recurring_grant(1, 100, 0, 0, 1, None, false);
    assert_eq!(
        pa.attempt_debit(501, 4),
        Err(CustomProgramError::CannotDebitMoreThanAvailable)
    );
    assert_eq!(pa.attempt_debit(500, 4), Ok(()));
    match pa.variant {
        PreAuthorizationVariant::Recurring {
            amount_debited_last_cycle,
            amount_debited_total,
            last_debited_cycle,
            ..
        } => {
            assert_eq!(amount_debited_last_cycle, 500);
            assert_eq!(amount_debited_total, 500);
            assert_eq!(last_debited_cycle, 5);
        }
        _ => unreachable!(),
    }
}

#[test]
fn reset_budget_spent_cycle_refreshes_next_cycle() {
    // Scenario: resetting budget of 100; cycle 5 fully spent, so nothing is
    // available in cycle 5 and the full 100 again in cycle 6.
    let mut pa = recurring_grant(1, 100, 100, 500, 5, None, true);
    assert_eq!(
        pa.attempt_debit(1, 4),
        Err(CustomProgramError::CannotDebitMoreThanAvailable)
    );
    let mut pa6 = recurring_grant(1, 100, 100, 500, 5, None, true);
    assert_eq!(
        pa6.attempt_debit(101, 5),
        Err(CustomProgramError::CannotDebitMoreThanAvailable)
    );
    assert_eq!(pa6.attempt_debit(100, 5), Ok(()));
    match pa6.variant {
        PreAuthorizationVariant::Recurring {
            amount_debited_last_cycle,
            amount_debited_total,
            last_debited_cycle,
            ..
        } => {
            assert_eq!(amount_debited_last_cycle, 100);
            assert_eq!(amount_debited_total, 600);
            assert_eq!(last_debited_cycle, 6);
        }
        _ => unreachable!(),
    }
}

#[test]
fn bounded_grant_past_its_cycle_count_is_not_active() {
    // Scenario: three cycles approved; at computed cycle 4 every debit is
    // refused, whatever the amount.
    let mut pa = recurring_grant(1, 100, 0, 0, 1, Some(3), false);
    assert_eq!(
        pa.attempt_debit(1, 3),
        Err(CustomProgramError::PreAuthorizationNotActive)
    );
    assert_eq!(
        pa.attempt_debit(0, 3),
        Err(CustomProgramError::PreAuthorizationNotActive)
    );
    // within the bound the grant is live
    assert_eq!(pa.attempt_debit(1, 2), Ok(()));
}

#[test]
fn paused_grant_refuses_and_unpausing_restores_current_time_evaluation() {
    // Scenario: paused mid-cycle, every debit is refused even with budget
    // available; once unpaused, evaluation uses the current time.
    let mut pa = recurring_grant(10, 100, 0, 0, 1, None, true);
    pa.paused = true;
    assert_eq!(
        pa.attempt_debit(1, 5),
        Err(CustomProgramError::PreAuthorizationPaused)
    );
    pa.paused = false;
    // now 35 lies in cycle 4, not in the cycle that was current at pause time
    assert_eq!(pa.attempt_debit(100, 35), Ok(()));
    match pa.variant {
        PreAuthorizationVariant::Recurring {
            last_debited_cycle, ..
        } => assert_eq!(last_debited_cycle, 4),
        _ => unreachable!(),
    }
}

#[test]
fn debit_of_exactly_available_succeeds_and_one_more_fails() {
    // Boundary: requesting exactly the available amount is admitted; one
    // unit beyond it is refused.
    let mut exact = recurring_grant(1, 100, 30, 30, 5, None, true);
    assert_eq!(exact.attempt_debit(70, 4), Ok(()));
    let mut beyond = recurring_grant(1, 100, 30, 30, 5, None, true);
    assert_eq!(
        beyond.attempt_debit(71, 4),
        Err(CustomProgramError::CannotDebitMoreThanAvailable)
    );
    let mut exact_one_time = one_time_grant(100, 1_000, 25);
    assert_eq!(exact_one_time.attempt_debit(75, 10), Ok(()));
    let mut beyond_one_time = one_time_grant(100, 1_000, 25);
    assert_eq!(
        beyond_one_time.attempt_debit(76, 10),
        Err(CustomProgramError::CannotDebitMoreThanAvailable)
    );
}

#[test]
fn clock_regression_is_refused() {
    // The last successful debit was in cycle 5; a time source answering with
    // cycle 2 must not be silently accepted.
    let mut pa = recurring_grant(10, 100, 0, 100, 5, None, false);
    assert_eq!(
        pa.attempt_debit(1, 15),
        Err(CustomProgramError::LastDebitedCycleBeforeCurrentCycle)
    );
}

#[test]
fn unrepresentable_elapsed_time_is_refused() {
    let mut pa = recurring_grant(1, 100, 0, 0, 1, None, false);
    pa.activation_unix_timestamp = -2;
    assert_eq!(
        pa.attempt_debit(1, i64::MAX),
        Err(CustomProgramError::InvalidTimestamp)
    );
}

#[test]
fn cumulative_entitlement_overflow_is_refused() {
    // At cycle 2^32 an authorization of 2^33 per cycle no longer fits u64.
    let period: u64 = 1;
    let now: i64 = (1_i64 << 32) - 1; // cycle 2^32
    let mut pa = recurring_grant(period, 1 << 33, 0, 0, 1, None, false);
    assert_eq!(
        pa.attempt_debit(1, now),
        Err(CustomProgramError::ArithmeticOverflow)
    );
}

#[test]
fn reset_mode_lifetime_total_overflow_is_refused() {
    // The budget admits 100 more, but the lifetime total can no longer be
    // represented; the debit is refused rather than wrapped.
    let mut pa = recurring_grant(1, 100, 100, u64::MAX - 50, 5, None, true);
    assert_eq!(
        pa.attempt_debit(100, 5),
        Err(CustomProgramError::ArithmeticOverflow)
    );
    // a smaller debit that still fits goes through
    assert_eq!(pa.attempt_debit(50, 5), Ok(()));
}
