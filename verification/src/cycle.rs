use vstd::prelude::*;
use crate::errors::CustomProgramError;

verus! {

/// The 1-based cycle index that the moment `now` falls into, for a grant
/// activated at `activation` with a period of `period` seconds: cycle 1 spans
/// `[activation, activation + period)`, cycle 2 the next period, and so on.
pub open spec fn spec_current_cycle(now: int, activation: int, period: int) -> int {
    1 + (now - activation) / period
}

/// The elapsed time `now - activation` is representable at the width the
/// clock arithmetic uses: it is non-negative and fits in an `i64`.
pub open spec fn cycle_computable(now: int, activation: int) -> bool {
    activation <= now && now - activation <= i64::MAX
}

/// Maps the current time to the 1-based cycle index of a recurring grant.
///
/// Fails with `InvalidTimestamp` when the elapsed time since activation is
/// negative (the external clock ran backward past the activation moment) or
/// does not fit the integer width used.
/// Whenever the elapsed time is representable, the cycle index lies between
/// 1 (at the activation moment) and one past the largest representable
/// elapsed time, so it always fits in a `u64`.
pub proof fn lemma_cycle_in_range(now: int, activation: int, period: int)
    requires
        cycle_computable(now, activation),
        period >= 1,
    ensures
        1 <= spec_current_cycle(now, activation, period) <= i64::MAX + 1,
{
    let elapsed = now - activation;
    vstd::arithmetic::div_mod::lemma_div_pos_is_pos(elapsed, period);
    vstd::arithmetic::div_mod::lemma_div_nonincreasing(elapsed, period);
}

pub fn compute_current_cycle(
    current_unix_timestamp: i64,
    activation_unix_timestamp: i64,
    repeat_frequency_seconds: u64,
) -> (r: Result<u64, CustomProgramError>)
    requires
        repeat_frequency_seconds > 0,
    ensures
        cycle_computable(current_unix_timestamp as int, activation_unix_timestamp as int)
            ==> r == Ok::<u64, CustomProgramError>(
                spec_current_cycle(
                    current_unix_timestamp as int,
                    activation_unix_timestamp as int,
                    repeat_frequency_seconds as int,
                ) as u64),
        !cycle_computable(current_unix_timestamp as int, activation_unix_timestamp as int)
            ==> r == Err::<u64, CustomProgramError>(CustomProgramError::InvalidTimestamp),
{
    if current_unix_timestamp < activation_unix_timestamp {
        return Err(CustomProgramError::InvalidTimestamp);
    }
    let elapsed_wide: i128 = (current_unix_timestamp as i128) - (activation_unix_timestamp as i128);
    if elapsed_wide > i64::MAX as i128 {
        return Err(CustomProgramError::InvalidTimestamp);
    }
    let seconds_since_activation: u64 = elapsed_wide as u64;
    Ok(1 + seconds_since_activation / repeat_frequency_seconds)
}

} // verus!
