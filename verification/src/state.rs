use vstd::prelude::*;

verus! {

/// The variant-specific budget rules and accounting counters of a
/// pre-authorization.
///
/// The rule fields are immutable after creation; only the accounting
/// counters (`amount_debited`, `amount_debited_last_cycle`,
/// `amount_debited_total`, `last_debited_cycle`) are updated, and only by the
/// debit engine.
#[derive(Clone, Copy, Debug, PartialEq, Eq)]
pub enum PreAuthorizationVariant {
    OneTime {
        /// The total amount the debit authority may move, over all debits.
        amount_authorized: u64,
        /// Debits are admitted strictly before this moment.
        expiry_unix_timestamp: i64,
        /// How much has been moved so far; starts at 0, never decreases, and
        /// never exceeds `amount_authorized`.
        amount_debited: u64,
    },
    Recurring {
        /// Length of one cycle in seconds; always positive.
        repeat_frequency_seconds: u64,
        /// The amount newly authorized in each cycle.
        recurring_amount_authorized: u64,
        /// How much was moved during `last_debited_cycle`.
        amount_debited_last_cycle: u64,
        /// How much has been moved over the grant's whole lifetime.
        amount_debited_total: u64,
        /// The cycle of the most recent successful debit; starts at 1 and
        /// never decreases.
        last_debited_cycle: u64,
        /// `None`: recurs forever. `Some(n)`: debits are admitted only in
        /// cycles 1 through `n`.
        num_cycles: Option<u64>,
        /// `true`: the budget resets to `recurring_amount_authorized` each
        /// cycle, forfeiting unspent amounts. `false`: unspent entitlement
        /// from earlier cycles carries forward.
        reset_every_cycle: bool,
    },
}

/// The accounting counters of a variant are consistent.
///
/// For a one-time grant, no more than the authorized amount has been moved.
/// For a recurring grant: the period is positive, cycles are 1-based, the
/// last cycle's spending never exceeds the lifetime total, a resetting budget
/// never spends past one cycle's authorization within a cycle, and a
/// cumulative budget never spends past the entitlement accrued by the last
/// debited cycle. The engine establishes these at creation and preserves them
/// across every debit; they are exactly what makes its subtractions safe.
pub open spec fn variant_well_formed(v: PreAuthorizationVariant) -> bool {
    match v {
        PreAuthorizationVariant::OneTime { amount_authorized, amount_debited, .. } =>
            amount_debited <= amount_authorized,
        PreAuthorizationVariant::Recurring {
            repeat_frequency_seconds,
            recurring_amount_authorized,
            amount_debited_last_cycle,
            amount_debited_total,
            last_debited_cycle,
            num_cycles: _,
            reset_every_cycle,
        } => {
            &&& repeat_frequency_seconds > 0
            &&& last_debited_cycle >= 1
            &&& amount_debited_last_cycle <= amount_debited_total
            &&& reset_every_cycle ==> amount_debited_last_cycle <= recurring_amount_authorized
            &&& !reset_every_cycle ==> amount_debited_total
                <= recurring_amount_authorized * last_debited_cycle
        },
    }
}

/// A spending grant: the per-(token account, debit authority) record holding
/// the budget rules and the accounting state of one pre-authorized debit
/// relationship.
#[derive(Clone, Copy, Debug, PartialEq, Eq)]
pub struct PreAuthorization {
    /// When true, no debit may succeed.
    pub paused: bool,
    /// The funding account the debit authority may pull from.
    pub token_account: u64,
    /// The budget rules and accounting counters.
    pub variant: PreAuthorizationVariant,
    /// The identity permitted to request debits under this grant.
    pub debit_authority: u64,
    /// The earliest moment at which the grant becomes live.
    pub activation_unix_timestamp: i64,
}

impl PreAuthorization {
    /// The grant's accounting state is consistent; see `variant_well_formed`.
    pub open spec fn well_formed(self) -> bool {
        variant_well_formed(self.variant)
    }
}

/// A capability delegation: the standing record that the ledger has been
/// instructed to trust this program's signing handle for unlimited amounts on
/// `token_account`. At most one exists per token account; it is never
/// mutated, and closed only by the owner.
#[derive(Clone, Copy, Debug, PartialEq, Eq, Structural)]
pub struct SmartDelegate {
    /// The funding account whose ledger-side delegate the signing handle is.
    pub token_account: u64,
}

/// The caller-supplied rules of a new pre-authorization: like
/// `PreAuthorizationVariant` but without the accounting counters, which
/// always start zeroed and at cycle 1.
#[derive(Clone, Copy, Debug, PartialEq, Eq)]
pub enum InitPreAuthorizationVariant {
    OneTime {
        amount_authorized: u64,
        expiry_unix_timestamp: i64,
    },
    Recurring {
        repeat_frequency_seconds: u64,
        recurring_amount_authorized: u64,
        num_cycles: Option<u64>,
        reset_every_cycle: bool,
    },
}

/// Parameters of `init_pre_authorization`.
#[derive(Clone, Copy, Debug, PartialEq, Eq)]
pub struct InitPreAuthorizationParams {
    pub variant: InitPreAuthorizationVariant,
    pub debit_authority: u64,
    pub activation_unix_timestamp: i64,
}

/// Parameters of `update_pause_pre_authorization`.
#[derive(Clone, Copy, Debug, PartialEq, Eq, Structural)]
pub struct UpdatePausePreAuthorizationParams {
    pub pause: bool,
}

/// Parameters of `debit`.
#[derive(Clone, Copy, Debug, PartialEq, Eq, Structural)]
pub struct DebitParams {
    pub amount: u64,
}

/// The release instruction a successful debit hands back: the ledger
/// collaborator is to move `amount` of `mint` from `from_token_account` to
/// `to_token_account`, authorized by the smart delegate's signing handle.
#[derive(Clone, Copy, Debug, PartialEq, Eq, Structural)]
pub struct TransferInstruction {
    pub from_token_account: u64,
    pub to_token_account: u64,
    pub mint: u64,
    pub amount: u64,
}

/// The variant a fresh grant starts with: the caller's rules with all
/// accounting counters zeroed and the cycle counter at 1.
pub open spec fn spec_init_variant(v: InitPreAuthorizationVariant) -> PreAuthorizationVariant {
    match v {
        InitPreAuthorizationVariant::OneTime { amount_authorized, expiry_unix_timestamp } =>
            PreAuthorizationVariant::OneTime {
                amount_authorized,
                expiry_unix_timestamp,
                amount_debited: 0,
            },
        InitPreAuthorizationVariant::Recurring {
            repeat_frequency_seconds,
            recurring_amount_authorized,
            num_cycles,
            reset_every_cycle,
        } => PreAuthorizationVariant::Recurring {
            repeat_frequency_seconds,
            recurring_amount_authorized,
            amount_debited_last_cycle: 0,
            amount_debited_total: 0,
            last_debited_cycle: 1,
            num_cycles,
            reset_every_cycle,
        },
    }
}

impl PreAuthorization {
    /// Builds the grant that `init_pre_authorization` records: unpaused, with
    /// the caller's rules and zeroed accounting counters.
    ///
    /// The period of a recurring variant must be positive; the resulting
    /// grant is well formed.
    pub fn new(
        token_account: u64,
        debit_authority: u64,
        activation_unix_timestamp: i64,
        variant: InitPreAuthorizationVariant,
    ) -> (r: PreAuthorization)
        requires
            variant matches InitPreAuthorizationVariant::Recurring {
                repeat_frequency_seconds, ..
            } ==> repeat_frequency_seconds > 0,
        ensures
            r == (PreAuthorization {
                paused: false,
                token_account,
                variant: spec_init_variant(variant),
                debit_authority,
                activation_unix_timestamp,
            }),
            r.well_formed(),
    {
        let new_variant = match variant {
            InitPreAuthorizationVariant::OneTime { amount_authorized, expiry_unix_timestamp } =>
                PreAuthorizationVariant::OneTime {
                    amount_authorized,
                    expiry_unix_timestamp,
                    amount_debited: 0,
                },
            InitPreAuthorizationVariant::Recurring {
                repeat_frequency_seconds,
                recurring_amount_authorized,
                num_cycles,
                reset_every_cycle,
            } => PreAuthorizationVariant::Recurring {
                repeat_frequency_seconds,
                recurring_amount_authorized,
                amount_debited_last_cycle: 0,
                amount_debited_total: 0,
                last_debited_cycle: 1,
                num_cycles,
                reset_every_cycle,
            },
        };
        PreAuthorization {
            paused: false,
            token_account,
            variant: new_variant,
            debit_authority,
            activation_unix_timestamp,
        }
    }
}

} // verus!
