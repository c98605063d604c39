use pre_authorized_debit::compute_available_amount_for_recurring_debit;

// Each row: (current_cycle, last_debited_cycle, recurring_amount_authorized,
// amount_debited_last_cycle, amount_debited_total, expected).

#[test]
fn cumulative_availability_accrues_across_cycles() {
    let cases: [(u64, u64, u64, u64, u64, u64); 15] = [
        (1, 1, 0, 0, 0, 0),
        (1, 1, 100, 0, 0, 100),
        (1, 1, 100, 100, 100, 0),
        (5, 1, 100, 0, 0, 500),
        (5, 1, 100, 100, 100, 400),
        (5, 4, 100, 100, 100, 400),
        (5, 4, 100, 100, 400, 100),
        (5, 4, 100, 400, 400, 100),
        (5, 5, 100, 100, 100, 400),
        (5, 5, 100, 100, 400, 100),
        (5, 5, 100, 400, 400, 100),
        (5, 5, 100, 0, 500, 0),
        (5, 5, 100, 400, 500, 0),
        (5, 5, 100, 500, 500, 0),
        (5, 5, 100, 0, 100, 400),
    ];
    for (cycle, last, authorized, last_spent, total, expected) in cases {
        assert_eq!(
            expected,
            compute_available_amount_for_recurring_debit(
                cycle, last, false, authorized, last_spent, total
            )
        );
    }
}

#[test]
fn reset_availability_refreshes_each_cycle() {
    let cases: [(u64, u64, u64, u64, u64, u64); 12] = [
        (1, 1, 0, 0, 0, 0),
        (1, 1, 100, 0, 0, 100),
        (1, 1, 100, 100, 100, 0),
        (5, 1, 100, 0, 0, 100),
        (5, 1, 100, 100, 100, 100),
        (5, 4, 100, 100, 100, 100),
        (5, 4, 100, 100, 400, 100),
        (5, 4, 100, 400, 400, 100),
        (5, 5, 100, 100, 100, 0),
        (5, 5, 100, 100, 400, 0),
        (5, 5, 100, 0, 500, 100),
        (5, 5, 100, 0, 100, 100),
    ];
    for (cycle, last, authorized, last_spent, total, expected) in cases {
        assert_eq!(
            expected,
            compute_available_amount_for_recurring_debit(
                cycle, last, true, authorized, last_spent, total
            )
        );
    }
}
