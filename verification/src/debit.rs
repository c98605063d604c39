use vstd::prelude::*;
use crate::cycle::compute_current_cycle;
use crate::cycle::cycle_computable;
use crate::cycle::lemma_cycle_in_range;
use crate::cycle::spec_current_cycle;
use crate::errors::CustomProgramError;
use crate::state::PreAuthorization;
use crate::state::PreAuthorizationVariant;

verus! {

/// The amount a recurring grant still offers, by the policy table.
///
/// Cumulative mode (`reset_every_cycle == false`): entitlement accrues one
/// `recurring_amount_authorized` per elapsed cycle, minus everything ever
/// spent; unused entitlement carries forward indefinitely. Reset mode grants
/// exactly `recurring_amount_authorized` per cycle: a new cycle starts fresh,
/// and within the last debited cycle the cycle's spending is subtracted.
pub open spec fn spec_available_amount(
    current_cycle: int,
    last_debited_cycle: int,
    reset_every_cycle: bool,
    recurring_amount_authorized: int,
    amount_debited_last_cycle: int,
    amount_debited_total: int,
) -> int {
    if !reset_every_cycle {
        recurring_amount_authorized * current_cycle - amount_debited_total
    } else if current_cycle == last_debited_cycle {
        recurring_amount_authorized - amount_debited_last_cycle
    } else {
        recurring_amount_authorized
    }
}

/// Computes the amount a recurring grant still offers in `current_cycle`.
///
/// The preconditions are the engine's invariants at the moment of a debit:
/// cycles are 1-based and never run backward, the last cycle's spending never
/// exceeds the lifetime total, the result is non-negative, and in cumulative
/// mode the accrued entitlement fits the integer width.
pub fn compute_available_amount_for_recurring_debit(
    current_cycle: u64,
    last_debited_cycle: u64,
    reset_every_cycle: bool,
    recurring_amount_authorized: u64,
    amount_debited_last_cycle: u64,
    amount_debited_total: u64,
) -> (amount_available: u64)
    requires
        1 <= last_debited_cycle <= current_cycle,
        amount_debited_last_cycle <= amount_debited_total,
        !reset_every_cycle ==> recurring_amount_authorized * current_cycle <= u64::MAX,
        spec_available_amount(
            current_cycle as int,
            last_debited_cycle as int,
            reset_every_cycle,
            recurring_amount_authorized as int,
            amount_debited_last_cycle as int,
            amount_debited_total as int,
        ) >= 0,
    ensures
        amount_available == spec_available_amount(
            current_cycle as int,
            last_debited_cycle as int,
            reset_every_cycle,
            recurring_amount_authorized as int,
            amount_debited_last_cycle as int,
            amount_debited_total as int,
        ),
{
    if !reset_every_cycle {
        recurring_amount_authorized * current_cycle - amount_debited_total
    } else if current_cycle == last_debited_cycle {
        recurring_amount_authorized - amount_debited_last_cycle
    } else {
        recurring_amount_authorized
    }
}

/// The first reason a debit of `amount` against `pa` at time `now` is
/// refused, or `None` when the debit is admissible.
///
/// The conditions are checked in order, short-circuiting on the first
/// failure: paused, not yet activated, the variant's own admissibility
/// (expiry for one-time grants; representable elapsed time, bounded cycle
/// count and no clock regression for recurring grants), the accrued
/// entitlement representable at the width used, the budget itself, and — for
/// a resetting budget — the lifetime total still representable after the
/// debit.
pub open spec fn spec_debit_error(
    pa: PreAuthorization,
    amount: u64,
    now: i64,
) -> Option<CustomProgramError> {
    if pa.paused {
        Some(CustomProgramError::PreAuthorizationPaused)
    } else if now < pa.activation_unix_timestamp {
        Some(CustomProgramError::PreAuthorizationNotActive)
    } else {
        match pa.variant {
            PreAuthorizationVariant::OneTime {
                amount_authorized,
                expiry_unix_timestamp,
                amount_debited,
            } => {
                if now >= expiry_unix_timestamp {
                    Some(CustomProgramError::PreAuthorizationNotActive)
                } else if amount > amount_authorized - amount_debited {
                    Some(CustomProgramError::CannotDebitMoreThanAvailable)
                } else {
                    None
                }
            },
            PreAuthorizationVariant::Recurring {
                repeat_frequency_seconds,
                recurring_amount_authorized,
                amount_debited_last_cycle,
                amount_debited_total,
                last_debited_cycle,
                num_cycles,
                reset_every_cycle,
            } => {
                if !cycle_computable(now as int, pa.activation_unix_timestamp as int) {
                    Some(CustomProgramError::InvalidTimestamp)
                } else {
                    let cycle = spec_current_cycle(
                        now as int,
                        pa.activation_unix_timestamp as int,
                        repeat_frequency_seconds as int,
                    );
                    if num_cycles matches Some(n) && cycle > n {
                        Some(CustomProgramError::PreAuthorizationNotActive)
                    } else if cycle < last_debited_cycle {
                        Some(CustomProgramError::LastDebitedCycleBeforeCurrentCycle)
                    } else if !reset_every_cycle && recurring_amount_authorized * cycle
                        > u64::MAX {
                        Some(CustomProgramError::ArithmeticOverflow)
                    } else if amount > spec_available_amount(
                        cycle,
                        last_debited_cycle as int,
                        reset_every_cycle,
                        recurring_amount_authorized as int,
                        amount_debited_last_cycle as int,
                        amount_debited_total as int,
                    ) {
                        Some(CustomProgramError::CannotDebitMoreThanAvailable)
                    } else if reset_every_cycle && amount_debited_total + amount > u64::MAX {
                        Some(CustomProgramError::ArithmeticOverflow)
                    } else {
                        None
                    }
                }
            },
        }
    }
}

/// The grant state after an admissible debit of `amount` at time `now`:
/// the rules are untouched and only the accounting counters advance. A
/// one-time grant adds `amount` to its spending. A recurring grant adds it to
/// the lifetime total, records the current cycle, and either extends the
/// cycle's spending (same cycle) or restarts it at `amount` (new cycle).
///
/// Meaningful only when `spec_debit_error(pa, amount, now)` is `None`.
pub open spec fn spec_debit_result(
    pa: PreAuthorization,
    amount: u64,
    now: i64,
) -> PreAuthorization {
    match pa.variant {
        PreAuthorizationVariant::OneTime {
            amount_authorized,
            expiry_unix_timestamp,
            amount_debited,
        } => PreAuthorization {
            variant: PreAuthorizationVariant::OneTime {
                amount_authorized,
                expiry_unix_timestamp,
                amount_debited: (amount_debited + amount) as u64,
            },
            ..pa
        },
        PreAuthorizationVariant::Recurring {
            repeat_frequency_seconds,
            recurring_amount_authorized,
            amount_debited_last_cycle,
            amount_debited_total,
            last_debited_cycle,
            num_cycles,
            reset_every_cycle,
        } => {
            let cycle = spec_current_cycle(
                now as int,
                pa.activation_unix_timestamp as int,
                repeat_frequency_seconds as int,
            ) as u64;
            PreAuthorization {
                variant: PreAuthorizationVariant::Recurring {
                    repeat_frequency_seconds,
                    recurring_amount_authorized,
                    amount_debited_last_cycle: if cycle == last_debited_cycle {
                        (amount_debited_last_cycle + amount) as u64
                    } else {
                        amount
                    },
                    amount_debited_total: (amount_debited_total + amount) as u64,
                    last_debited_cycle: cycle,
                    num_cycles,
                    reset_every_cycle,
                },
                ..pa
            }
        },
    }
}

/// The amount a grant still offers at time `now`: the unspent remainder of a
/// one-time authorization, or the recurring policy table's amount for the
/// cycle that `now` falls into.
///
/// Meaningful when the grant is well formed and `spec_debit_admissible`
/// holds.
pub open spec fn spec_grant_available(pa: PreAuthorization, now: i64) -> int {
    match pa.variant {
        PreAuthorizationVariant::OneTime { amount_authorized, amount_debited, .. } =>
            amount_authorized - amount_debited,
        PreAuthorizationVariant::Recurring {
            repeat_frequency_seconds,
            recurring_amount_authorized,
            amount_debited_last_cycle,
            amount_debited_total,
            last_debited_cycle,
            num_cycles: _,
            reset_every_cycle,
        } => spec_available_amount(
            spec_current_cycle(
                now as int,
                pa.activation_unix_timestamp as int,
                repeat_frequency_seconds as int,
            ),
            last_debited_cycle as int,
            reset_every_cycle,
            recurring_amount_authorized as int,
            amount_debited_last_cycle as int,
            amount_debited_total as int,
        ),
    }
}

/// Every check of `spec_debit_error` that does not depend on the requested
/// amount passes: the grant is unpaused and live at `now`, and for a
/// recurring grant the elapsed time is representable, the cycle is within
/// any bound, the clock has not regressed, and the accrued cumulative
/// entitlement fits the integer width.
pub open spec fn spec_debit_admissible(pa: PreAuthorization, now: i64) -> bool {
    &&& !pa.paused
    &&& now >= pa.activation_unix_timestamp
    &&& match pa.variant {
        PreAuthorizationVariant::OneTime { expiry_unix_timestamp, .. } => now
            < expiry_unix_timestamp,
        PreAuthorizationVariant::Recurring {
            repeat_frequency_seconds,
            recurring_amount_authorized,
            last_debited_cycle,
            num_cycles,
            reset_every_cycle,
            ..
        } => {
            let cycle = spec_current_cycle(
                now as int,
                pa.activation_unix_timestamp as int,
                repeat_frequency_seconds as int,
            );
            &&& cycle_computable(now as int, pa.activation_unix_timestamp as int)
            &&& (num_cycles matches Some(n) ==> cycle <= n)
            &&& cycle >= last_debited_cycle
            &&& (!reset_every_cycle ==> recurring_amount_authorized * cycle <= u64::MAX)
        },
    }
}

/// Cumulative availability is exactly the entitlement accrued over the
/// elapsed cycles minus everything ever spent, whatever the last debited
/// cycle and its spending were.
pub proof fn lemma_available_cumulative(
    current_cycle: int,
    last_debited_cycle: int,
    recurring_amount_authorized: int,
    amount_debited_last_cycle: int,
    amount_debited_total: int,
)
    ensures
        spec_available_amount(
            current_cycle,
            last_debited_cycle,
            false,
            recurring_amount_authorized,
            amount_debited_last_cycle,
            amount_debited_total,
        ) == recurring_amount_authorized * current_cycle - amount_debited_total,
{
}

/// Cumulative availability is monotonic in the cycle index: with the same
/// spending history, a later cycle never offers less.
pub proof fn lemma_available_cumulative_monotonic(
    cycle1: int,
    cycle2: int,
    last_debited_cycle: int,
    recurring_amount_authorized: int,
    amount_debited_last_cycle: int,
    amount_debited_total: int,
)
    requires
        cycle1 <= cycle2,
        recurring_amount_authorized >= 0,
    ensures
        spec_available_amount(
            cycle1,
            last_debited_cycle,
            false,
            recurring_amount_authorized,
            amount_debited_last_cycle,
            amount_debited_total,
        ) <= spec_available_amount(
            cycle2,
            last_debited_cycle,
            false,
            recurring_amount_authorized,
            amount_debited_last_cycle,
            amount_debited_total,
        ),
{
    vstd::arithmetic::mul::lemma_mul_inequality(cycle1, cycle2, recurring_amount_authorized);
    vstd::arithmetic::mul::lemma_mul_is_commutative(cycle1, recurring_amount_authorized);
    vstd::arithmetic::mul::lemma_mul_is_commutative(cycle2, recurring_amount_authorized);
}

/// In reset mode, within the last debited cycle, exactly the cycle's
/// authorization minus what that cycle already spent is available.
pub proof fn lemma_available_reset_same_cycle(
    current_cycle: int,
    recurring_amount_authorized: int,
    amount_debited_last_cycle: int,
    amount_debited_total: int,
)
    ensures
        spec_available_amount(
            current_cycle,
            current_cycle,
            true,
            recurring_amount_authorized,
            amount_debited_last_cycle,
            amount_debited_total,
        ) == recurring_amount_authorized - amount_debited_last_cycle,
{
}

/// In reset mode a new cycle offers the full cycle authorization, however
/// far back the last debited cycle lies and whatever was spent before:
/// unspent amounts are forfeited at the cycle boundary.
pub proof fn lemma_available_reset_new_cycle(
    current_cycle: int,
    last_debited_cycle: int,
    recurring_amount_authorized: int,
    amount_debited_last_cycle: int,
    amount_debited_total: int,
)
    requires
        last_debited_cycle < current_cycle,
    ensures
        spec_available_amount(
            current_cycle,
            last_debited_cycle,
            true,
            recurring_amount_authorized,
            amount_debited_last_cycle,
            amount_debited_total,
        ) == recurring_amount_authorized,
{
}

/// At the exact budget boundary a debit is admitted, and one unit beyond it
/// is refused as exceeding the available amount.
///
/// The reset-mode side condition excludes the one case where the boundary
/// debit itself is unrepresentable: a lifetime total that would exceed the
/// integer width is refused as an overflow rather than admitted.
pub proof fn lemma_debit_budget_boundary(pa: PreAuthorization, now: i64)
    requires
        pa.well_formed(),
        spec_debit_admissible(pa, now),
        pa.variant matches PreAuthorizationVariant::Recurring {
            reset_every_cycle: true,
            amount_debited_total,
            ..
        } ==> amount_debited_total + spec_grant_available(pa, now) <= u64::MAX,
    ensures
        0 <= spec_grant_available(pa, now) <= u64::MAX,
        spec_debit_error(pa, spec_grant_available(pa, now) as u64, now) is None,
        spec_grant_available(pa, now) < u64::MAX ==> spec_debit_error(
            pa,
            (spec_grant_available(pa, now) + 1) as u64,
            now,
        ) == Some(CustomProgramError::CannotDebitMoreThanAvailable),
{
    match pa.variant {
        PreAuthorizationVariant::OneTime { .. } => {},
        PreAuthorizationVariant::Recurring {
            repeat_frequency_seconds,
            recurring_amount_authorized,
            last_debited_cycle,
            reset_every_cycle,
            ..
        } => {
            let cycle = spec_current_cycle(
                now as int,
                pa.activation_unix_timestamp as int,
                repeat_frequency_seconds as int,
            );
            if !reset_every_cycle {
                vstd::arithmetic::mul::lemma_mul_inequality(
                    last_debited_cycle as int,
                    cycle,
                    recurring_amount_authorized as int,
                );
            }
        },
    }
}

impl PreAuthorization {
    /// Decides whether a debit of `amount` at time `now` is permitted and, if
    /// so, advances the accounting counters; the actual fund movement is the
    /// caller's to perform afterwards.
    ///
    /// On an error nothing changes; on success the state is exactly
    /// `spec_debit_result`. Well-formedness is preserved either way, the
    /// grant's rules and identity never change, a one-time grant's spending
    /// only grows and stays within its authorization, and a recurring grant's
    /// cycle counter never decreases.
    pub fn attempt_debit(&mut self, amount: u64, now: i64) -> (r: Result<(), CustomProgramError>)
        requires
            old(self).well_formed(),
        ensures
            final(self).well_formed(),
            (match r {
                Ok(()) => spec_debit_error(*old(self), amount, now) is None && *final(self)
                    == spec_debit_result(*old(self), amount, now),
                Err(e) => spec_debit_error(*old(self), amount, now) == Some(e) && *final(self)
                    == *old(self),
            }),
            final(self).token_account == old(self).token_account,
            final(self).debit_authority == old(self).debit_authority,
            final(self).paused == old(self).paused,
            final(self).activation_unix_timestamp == old(self).activation_unix_timestamp,
            (old(self).variant matches PreAuthorizationVariant::OneTime {
                amount_authorized: a0,
                amount_debited: d0,
                ..
            } ==> final(self).variant matches PreAuthorizationVariant::OneTime {
                amount_authorized: a1,
                amount_debited: d1,
                ..
            } && a1 == a0 && d0 <= d1 <= a1),
            (old(self).variant matches PreAuthorizationVariant::Recurring {
                last_debited_cycle: c0,
                ..
            } ==> final(self).variant matches PreAuthorizationVariant::Recurring {
                last_debited_cycle: c1,
                amount_debited_last_cycle: l1,
                amount_debited_total: t1,
                ..
            } && c0 <= c1 && l1 <= t1),
    {
        if self.paused {
            return Err(CustomProgramError::PreAuthorizationPaused);
        }
        if now < self.activation_unix_timestamp {
            return Err(CustomProgramError::PreAuthorizationNotActive);
        }
        match self.variant {
            PreAuthorizationVariant::OneTime {
                amount_authorized,
                expiry_unix_timestamp,
                amount_debited,
            } => {
                if now >= expiry_unix_timestamp {
                    return Err(CustomProgramError::PreAuthorizationNotActive);
                }
                let amount_available = amount_authorized - amount_debited;
                if amount > amount_available {
                    return Err(CustomProgramError::CannotDebitMoreThanAvailable);
                }
                self.variant = PreAuthorizationVariant::OneTime {
                    amount_authorized,
                    expiry_unix_timestamp,
                    amount_debited: amount_debited + amount,
                };
                Ok(())
            },
            PreAuthorizationVariant::Recurring {
                repeat_frequency_seconds,
                recurring_amount_authorized,
                amount_debited_last_cycle,
                amount_debited_total,
                last_debited_cycle,
                num_cycles,
                reset_every_cycle,
            } => {
                let current_cycle = match compute_current_cycle(
                    now,
                    self.activation_unix_timestamp,
                    repeat_frequency_seconds,
                ) {
                    Ok(c) => c,
                    Err(e) => {
                        return Err(e);
                    },
                };
                proof {
                    lemma_cycle_in_range(
                        now as int,
                        self.activation_unix_timestamp as int,
                        repeat_frequency_seconds as int,
                    );
                }
                if let Some(n) = num_cycles {
                    if current_cycle > n {
                        return Err(CustomProgramError::PreAuthorizationNotActive);
                    }
                }
                if current_cycle < last_debited_cycle {
                    return Err(CustomProgramError::LastDebitedCycleBeforeCurrentCycle);
                }
                let amount_available: u64 = if !reset_every_cycle {
                    let accrued = match recurring_amount_authorized.checked_mul(current_cycle) {
                        Some(p) => p,
                        None => {
                            return Err(CustomProgramError::ArithmeticOverflow);
                        },
                    };
                    proof {
                        vstd::arithmetic::mul::lemma_mul_inequality(
                            last_debited_cycle as int,
                            current_cycle as int,
                            recurring_amount_authorized as int,
                        );
                    }
                    accrued - amount_debited_total
                } else if current_cycle == last_debited_cycle {
                    recurring_amount_authorized - amount_debited_last_cycle
                } else {
                    recurring_amount_authorized
                };
                if amount > amount_available {
                    return Err(CustomProgramError::CannotDebitMoreThanAvailable);
                }
                let new_amount_debited_total: u64 = if reset_every_cycle {
                    match amount_debited_total.checked_add(amount) {
                        Some(t) => t,
                        None => {
                            return Err(CustomProgramError::ArithmeticOverflow);
                        },
                    }
                } else {
                    amount_debited_total + amount
                };
                let new_amount_debited_last_cycle: u64 = if current_cycle == last_debited_cycle {
                    amount_debited_last_cycle + amount
                } else {
                    amount
                };
                self.variant = PreAuthorizationVariant::Recurring {
                    repeat_frequency_seconds,
                    recurring_amount_authorized,
                    amount_debited_last_cycle: new_amount_debited_last_cycle,
                    amount_debited_total: new_amount_debited_total,
                    last_debited_cycle: current_cycle,
                    num_cycles,
                    reset_every_cycle,
                };
                Ok(())
            },
        }
    }
}

} // verus!
