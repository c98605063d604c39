use vstd::prelude::*;
use std::collections::HashMap;
use crate::debit::spec_debit_error;
use crate::debit::spec_debit_result;
use crate::errors::CustomProgramError;
use crate::state::DebitParams;
use crate::state::InitPreAuthorizationParams;
use crate::state::InitPreAuthorizationVariant;
use crate::state::PreAuthorization;
use crate::state::SmartDelegate;
use crate::state::TransferInstruction;
use crate::state::UpdatePausePreAuthorizationParams;
use crate::state::spec_init_variant;

verus! {

broadcast use vstd::std_specs::hash::group_hash_axioms;

/// The storage slot of the grant for a (token account, debit authority)
/// pair: the pair packed into one `u128`. Records are addressed
/// deterministically from their key tuple, so the one-grant-per-pair
/// invariant is enforced by the addressing itself.
pub open spec fn grant_key(token_account: u64, debit_authority: u64) -> u128 {
    (token_account * 0x1_0000_0000_0000_0000 + debit_authority) as u128
}

/// Packing the key tuple is injective: distinct pairs occupy distinct slots.
pub proof fn lemma_grant_key_injective(ta1: u64, da1: u64, ta2: u64, da2: u64)
    ensures
        grant_key(ta1, da1) == grant_key(ta2, da2) ==> (ta1 == ta2 && da1 == da2),
{
    let m: int = 0x1_0000_0000_0000_0000;
    if grant_key(ta1, da1) == grant_key(ta2, da2) {
        vstd::arithmetic::div_mod::lemma_fundamental_div_mod_converse(
            grant_key(ta1, da1) as int,
            m,
            ta1 as int,
            da1 as int,
        );
        vstd::arithmetic::div_mod::lemma_fundamental_div_mod_converse(
            grant_key(ta2, da2) as int,
            m,
            ta2 as int,
            da2 as int,
        );
    }
}

/// A well-formed registry holds at most one grant per (token account, debit
/// authority) pair: two stored records naming the same pair sit in the same
/// slot, so they are the same record.
pub proof fn lemma_grant_uniqueness(reg: Registry, k1: u128, k2: u128)
    requires
        reg.wf(),
        reg.grants().contains_key(k1),
        reg.grants().contains_key(k2),
        reg.grants()[k1].token_account == reg.grants()[k2].token_account,
        reg.grants()[k1].debit_authority == reg.grants()[k2].debit_authority,
    ensures
        k1 == k2,
{
}

fn compute_grant_key(token_account: u64, debit_authority: u64) -> (k: u128)
    ensures
        k == grant_key(token_account, debit_authority),
{
    proof {
        vstd::arithmetic::mul::lemma_mul_inequality(
            token_account as int,
            u64::MAX as int,
            0x1_0000_0000_0000_0000,
        );
    }
    (token_account as u128) * 0x1_0000_0000_0000_0000u128 + (debit_authority as u128)
}

/// The grant a successful `init_pre_authorization` records: unpaused, with
/// the caller's rules and zeroed accounting counters.
pub open spec fn spec_init_grant(token_account: u64, params: InitPreAuthorizationParams)
    -> PreAuthorization {
    PreAuthorization {
        paused: false,
        token_account,
        variant: spec_init_variant(params.variant),
        debit_authority: params.debit_authority,
        activation_unix_timestamp: params.activation_unix_timestamp,
    }
}

/// The first reason a `debit` call on the registry is refused, or `None`
/// when it goes through: the signer must be the named debit authority, the
/// grant and the token account's smart delegate must exist, the declared
/// mint must agree with both token accounts' mints, and the grant's own
/// engine checks must pass.
pub open spec fn spec_registry_debit_error(
    grants: Map<u128, PreAuthorization>,
    delegations: Map<u64, SmartDelegate>,
    token_account: u64,
    debit_authority: u64,
    signer: u64,
    mint: u64,
    token_account_mint: u64,
    destination_token_account_mint: u64,
    amount: u64,
    now: i64,
) -> Option<CustomProgramError> {
    let key = grant_key(token_account, debit_authority);
    if signer != debit_authority {
        Some(CustomProgramError::DebitUnauthorized)
    } else if !grants.contains_key(key) {
        Some(CustomProgramError::PreAuthorizationNotFound)
    } else if !delegations.contains_key(token_account) {
        Some(CustomProgramError::SmartDelegateNotFound)
    } else if mint != token_account_mint || mint != destination_token_account_mint {
        Some(CustomProgramError::MintMismatch)
    } else {
        spec_debit_error(grants[key], amount, now)
    }
}

/// Every stored grant is well formed and sits in the slot its own key tuple
/// addresses.
pub open spec fn grants_wf(m: Map<u128, PreAuthorization>) -> bool {
    forall|k: u128| #[trigger] m.contains_key(k) ==> {
        &&& m[k].well_formed()
        &&& k == grant_key(m[k].token_account, m[k].debit_authority)
    }
}

/// Every stored delegation sits in the slot of its own token account.
pub open spec fn delegations_wf(m: Map<u64, SmartDelegate>) -> bool {
    forall|k: u64| #[trigger] m.contains_key(k) ==> m[k].token_account == k
}

proof fn lemma_grants_wf_insert(m: Map<u128, PreAuthorization>, key: u128, value: PreAuthorization)
    requires
        grants_wf(m),
        value.well_formed(),
        key == grant_key(value.token_account, value.debit_authority),
    ensures
        grants_wf(m.insert(key, value)),
{
    assert forall|k: u128| #[trigger] m.insert(key, value).contains_key(k) implies {
        &&& m.insert(key, value)[k].well_formed()
        &&& k == grant_key(
            m.insert(key, value)[k].token_account,
            m.insert(key, value)[k].debit_authority,
        )
    } by {
        if k != key {
            assert(m.contains_key(k));
        }
    }
}

proof fn lemma_grants_wf_remove(m: Map<u128, PreAuthorization>, key: u128)
    requires
        grants_wf(m),
    ensures
        grants_wf(m.remove(key)),
{
    assert forall|k: u128| #[trigger] m.remove(key).contains_key(k) implies {
        &&& m.remove(key)[k].well_formed()
        &&& k == grant_key(m.remove(key)[k].token_account, m.remove(key)[k].debit_authority)
    } by {
        assert(m.contains_key(k));
    }
}

proof fn lemma_delegations_wf_insert(m: Map<u64, SmartDelegate>, key: u64, value: SmartDelegate)
    requires
        delegations_wf(m),
        value.token_account == key,
    ensures
        delegations_wf(m.insert(key, value)),
{
    assert forall|k: u64| #[trigger] m.insert(key, value).contains_key(k) implies m.insert(
        key,
        value,
    )[k].token_account == k by {
        if k != key {
            assert(m.contains_key(k));
        }
    }
}

proof fn lemma_delegations_wf_remove(m: Map<u64, SmartDelegate>, key: u64)
    requires
        delegations_wf(m),
    ensures
        delegations_wf(m.remove(key)),
{
    assert forall|k: u64| #[trigger] m.remove(key).contains_key(k) implies m.remove(
        key,
    )[k].token_account == k by {
        assert(m.contains_key(k));
    }
}

/// The program's persistent state: every smart delegate and every
/// pre-authorization, each held in a slot addressed deterministically from
/// its key tuple. Stands in for the chain's account storage; the ledger that
/// actually holds funds is an external collaborator.
pub struct Registry {
    /// One capability delegation per token account, keyed by it.
    pub smart_delegates: HashMap<u64, SmartDelegate>,
    /// One spending grant per (token account, debit authority) pair, keyed
    /// by the packed pair.
    pub pre_authorizations: HashMap<u128, PreAuthorization>,
}

impl Registry {
    /// The stored grants, as a map from packed key to record.
    pub open spec fn grants(self) -> Map<u128, PreAuthorization> {
        self.pre_authorizations@
    }

    /// The stored delegations, as a map from token account to record.
    pub open spec fn delegations(self) -> Map<u64, SmartDelegate> {
        self.smart_delegates@
    }

    /// Every stored record is well formed and sits in the slot its own key
    /// tuple addresses.
    pub open spec fn wf(self) -> bool {
        &&& grants_wf(self.grants())
        &&& delegations_wf(self.delegations())
    }

    /// An empty registry: no delegations, no grants.
    pub fn new() -> (r: Registry)
        ensures
            r.wf(),
            r.grants() == Map::<u128, PreAuthorization>::empty(),
            r.delegations() == Map::<u64, SmartDelegate>::empty(),
    {
        Registry { smart_delegates: HashMap::new(), pre_authorizations: HashMap::new() }
    }

    /// Creates (or idempotently re-establishes) the capability delegation for
    /// `token_account`. Only the token account's owner may do so; on success
    /// the caller is to instruct the ledger to trust the delegation's signing
    /// handle for unlimited amounts — an instruction that is safe to repeat.
    pub fn init_smart_delegate(
        &mut self,
        token_account: u64,
        token_account_owner: u64,
        signer: u64,
    ) -> (r: Result<SmartDelegate, CustomProgramError>)
        requires
            old(self).wf(),
        ensures
            final(self).wf(),
            final(self).grants() == old(self).grants(),
            (match r {
                Ok(d) => {
                    &&& signer == token_account_owner
                    &&& d == (SmartDelegate { token_account })
                    &&& final(self).delegations() == old(self).delegations().insert(
                        token_account,
                        SmartDelegate { token_account },
                    )
                },
                Err(e) => {
                    &&& e == CustomProgramError::InitSmartDelegateUnauthorized
                    &&& signer != token_account_owner
                    &&& final(self).delegations() == old(self).delegations()
                },
            }),
    {
        if signer != token_account_owner {
            return Err(CustomProgramError::InitSmartDelegateUnauthorized);
        }
        let delegate = SmartDelegate { token_account };
        self.smart_delegates.insert(token_account, delegate);
        proof {
            lemma_delegations_wf_insert(old(self).delegations(), token_account, delegate);
        }
        Ok(delegate)
    }

    /// Authorizes removing the ledger-side trust in `token_account`'s signing
    /// handle. Only the owner may do so; the instruction the caller then
    /// gives the ledger is idempotent, so revoking already-absent trust
    /// succeeds. The delegation record itself stays until closed.
    pub fn revoke_smart_delegate(
        &self,
        token_account: u64,
        token_account_owner: u64,
        signer: u64,
    ) -> (r: Result<(), CustomProgramError>)
        ensures
            r == if signer == token_account_owner {
                Ok::<(), CustomProgramError>(())
            } else {
                Err::<(), CustomProgramError>(CustomProgramError::SmartDelegateCloseUnauthorized)
            },
    {
        let _ = token_account;
        if signer != token_account_owner {
            return Err(CustomProgramError::SmartDelegateCloseUnauthorized);
        }
        Ok(())
    }

    /// Destroys the capability delegation record for `token_account` and
    /// releases its storage deposit. Only the token account's owner may do
    /// so; closing an absent delegation is a no-op, not an error. The caller
    /// is to instruct the ledger to drop its trust as well.
    pub fn close_smart_delegate(
        &mut self,
        token_account: u64,
        token_account_owner: u64,
        signer: u64,
    ) -> (r: Result<(), CustomProgramError>)
        requires
            old(self).wf(),
        ensures
            final(self).wf(),
            final(self).grants() == old(self).grants(),
            (match r {
                Ok(()) => {
                    &&& signer == token_account_owner
                    &&& final(self).delegations() == old(self).delegations().remove(token_account)
                },
                Err(e) => {
                    &&& e == CustomProgramError::SmartDelegateCloseUnauthorized
                    &&& signer != token_account_owner
                    &&& final(self).delegations() == old(self).delegations()
                },
            }),
    {
        if signer != token_account_owner {
            return Err(CustomProgramError::SmartDelegateCloseUnauthorized);
        }
        self.smart_delegates.remove(&token_account);
        proof {
            lemma_delegations_wf_remove(old(self).delegations(), token_account);
        }
        Ok(())
    }

    /// Creates the pre-authorization for `(token_account,
    /// params.debit_authority)`. Only the token account's owner may do so,
    /// and the slot must be free: a second grant for the same pair is
    /// refused. The fresh grant starts unpaused with zeroed counters.
    ///
    /// A recurring variant must carry a positive period.
    pub fn init_pre_authorization(
        &mut self,
        token_account: u64,
        token_account_owner: u64,
        signer: u64,
        params: InitPreAuthorizationParams,
    ) -> (r: Result<(), CustomProgramError>)
        requires
            old(self).wf(),
            params.variant matches InitPreAuthorizationVariant::Recurring {
                repeat_frequency_seconds,
                ..
            } ==> repeat_frequency_seconds > 0,
        ensures
            final(self).wf(),
            final(self).delegations() == old(self).delegations(),
            (match r {
                Ok(()) => {
                    &&& signer == token_account_owner
                    &&& !old(self).grants().contains_key(
                        grant_key(token_account, params.debit_authority),
                    )
                    &&& final(self).grants() == old(self).grants().insert(
                        grant_key(token_account, params.debit_authority),
                        spec_init_grant(token_account, params),
                    )
                },
                Err(e) => {
                    &&& final(self).grants() == old(self).grants()
                    &&& if signer != token_account_owner {
                        e == CustomProgramError::InitPreAuthorizationUnauthorized
                    } else {
                        &&& e == CustomProgramError::PreAuthorizationAlreadyExists
                        &&& old(self).grants().contains_key(
                            grant_key(token_account, params.debit_authority),
                        )
                    }
                },
            }),
    {
        if signer != token_account_owner {
            return Err(CustomProgramError::InitPreAuthorizationUnauthorized);
        }
        let key = compute_grant_key(token_account, params.debit_authority);
        if self.pre_authorizations.contains_key(&key) {
            return Err(CustomProgramError::PreAuthorizationAlreadyExists);
        }
        let grant = PreAuthorization::new(
            token_account,
            params.debit_authority,
            params.activation_unix_timestamp,
            params.variant,
        );
        self.pre_authorizations.insert(key, grant);
        proof {
            lemma_grants_wf_insert(old(self).grants(), key as u128, grant);
        }
        Ok(())
    }

    /// Pauses or unpauses the grant for `(token_account, debit_authority)`.
    /// Only the token account's owner may do so; setting the flag to its
    /// current value is a no-op, not an error. Nothing else of the grant
    /// changes.
    pub fn update_pause_pre_authorization(
        &mut self,
        token_account: u64,
        token_account_owner: u64,
        signer: u64,
        debit_authority: u64,
        params: UpdatePausePreAuthorizationParams,
    ) -> (r: Result<(), CustomProgramError>)
        requires
            old(self).wf(),
        ensures
            final(self).wf(),
            final(self).delegations() == old(self).delegations(),
            (match r {
                Ok(()) => {
                    let key = grant_key(token_account, debit_authority);
                    &&& signer == token_account_owner
                    &&& old(self).grants().contains_key(key)
                    &&& final(self).grants() == old(self).grants().insert(
                        key,
                        PreAuthorization {
                            paused: params.pause,
                            ..old(self).grants()[key]
                        },
                    )
                },
                Err(e) => {
                    &&& final(self).grants() == old(self).grants()
                    &&& if signer != token_account_owner {
                        e == CustomProgramError::PausePreAuthorizationUnauthorized
                    } else {
                        &&& e == CustomProgramError::PreAuthorizationNotFound
                        &&& !old(self).grants().contains_key(
                            grant_key(token_account, debit_authority),
                        )
                    }
                },
            }),
    {
        if signer != token_account_owner {
            return Err(CustomProgramError::PausePreAuthorizationUnauthorized);
        }
        let key = compute_grant_key(token_account, debit_authority);
        let grant = match self.pre_authorizations.get(&key) {
            Some(g) => *g,
            None => {
                return Err(CustomProgramError::PreAuthorizationNotFound);
            },
        };
        let updated = PreAuthorization { paused: params.pause, ..grant };
        self.pre_authorizations.insert(key, updated);
        proof {
            lemma_grants_wf_insert(old(self).grants(), key as u128, updated);
        }
        Ok(())
    }

    /// Destroys the grant for `(token_account, debit_authority)` and
    /// releases its storage deposit to `receiver`. The closing `authority`
    /// must be the token account's owner or the grant's own debit authority,
    /// and the deposit may only leave the owner's control with the owner's
    /// signature: either the owner closes (any receiver), or the receiver is
    /// the owner.
    pub fn close_pre_authorization(
        &mut self,
        token_account: u64,
        token_account_owner: u64,
        authority: u64,
        debit_authority: u64,
        receiver: u64,
    ) -> (r: Result<(), CustomProgramError>)
        requires
            old(self).wf(),
        ensures
            final(self).wf(),
            final(self).delegations() == old(self).delegations(),
            (match r {
                Ok(()) => {
                    let key = grant_key(token_account, debit_authority);
                    &&& authority == token_account_owner || receiver == token_account_owner
                    &&& old(self).grants().contains_key(key)
                    &&& authority == token_account_owner || authority == debit_authority
                    &&& final(self).grants() == old(self).grants().remove(key)
                },
                Err(e) => {
                    &&& final(self).grants() == old(self).grants()
                    &&& if authority != token_account_owner && receiver != token_account_owner {
                        e == CustomProgramError::OnlyTokenAccountOwnerCanReceiveClosePreAuthFunds
                    } else if !old(self).grants().contains_key(
                        grant_key(token_account, debit_authority),
                    ) {
                        e == CustomProgramError::PreAuthorizationNotFound
                    } else {
                        &&& e == CustomProgramError::PreAuthorizationCloseUnauthorized
                        &&& authority != token_account_owner
                        &&& authority != debit_authority
                    }
                },
            }),
    {
        if authority != token_account_owner && receiver != token_account_owner {
            return Err(CustomProgramError::OnlyTokenAccountOwnerCanReceiveClosePreAuthFunds);
        }
        let key = compute_grant_key(token_account, debit_authority);
        if !self.pre_authorizations.contains_key(&key) {
            return Err(CustomProgramError::PreAuthorizationNotFound);
        }
        if authority != token_account_owner && authority != debit_authority {
            return Err(CustomProgramError::PreAuthorizationCloseUnauthorized);
        }
        self.pre_authorizations.remove(&key);
        proof {
            lemma_grants_wf_remove(old(self).grants(), key as u128);
        }
        Ok(())
    }

    /// Validates a debit request against the grant for `(token_account,
    /// debit_authority)`, advances the grant's accounting state, and returns
    /// the transfer the ledger collaborator is to execute. On any error
    /// nothing changes.
    ///
    /// The checks run in order: the signer must be the debit authority, the
    /// grant and the token account's smart delegate must exist, the mints
    /// must agree, and the grant's own rules (pause, activation, expiry or
    /// cycle bounds, clock regression, budget) must admit the amount.
    pub fn debit(
        &mut self,
        token_account: u64,
        debit_authority: u64,
        signer: u64,
        destination_token_account: u64,
        mint: u64,
        token_account_mint: u64,
        destination_token_account_mint: u64,
        params: DebitParams,
        now: i64,
    ) -> (r: Result<TransferInstruction, CustomProgramError>)
        requires
            old(self).wf(),
        ensures
            final(self).wf(),
            final(self).delegations() == old(self).delegations(),
            (match r {
                Ok(instruction) => {
                    let key = grant_key(token_account, debit_authority);
                    &&& spec_registry_debit_error(
                        old(self).grants(),
                        old(self).delegations(),
                        token_account,
                        debit_authority,
                        signer,
                        mint,
                        token_account_mint,
                        destination_token_account_mint,
                        params.amount,
                        now,
                    ) is None
                    &&& final(self).grants() == old(self).grants().insert(
                        key,
                        spec_debit_result(old(self).grants()[key], params.amount, now),
                    )
                    &&& instruction == (TransferInstruction {
                        from_token_account: token_account,
                        to_token_account: destination_token_account,
                        mint,
                        amount: params.amount,
                    })
                },
                Err(e) => {
                    &&& spec_registry_debit_error(
                        old(self).grants(),
                        old(self).delegations(),
                        token_account,
                        debit_authority,
                        signer,
                        mint,
                        token_account_mint,
                        destination_token_account_mint,
                        params.amount,
                        now,
                    ) == Some(e)
                    &&& final(self).grants() == old(self).grants()
                },
            }),
    {
        if signer != debit_authority {
            return Err(CustomProgramError::DebitUnauthorized);
        }
        let key = compute_grant_key(token_account, debit_authority);
        let mut grant = match self.pre_authorizations.get(&key) {
            Some(g) => *g,
            None => {
                return Err(CustomProgramError::PreAuthorizationNotFound);
            },
        };
        if !self.smart_delegates.contains_key(&token_account) {
            return Err(CustomProgramError::SmartDelegateNotFound);
        }
        if mint != token_account_mint || mint != destination_token_account_mint {
            return Err(CustomProgramError::MintMismatch);
        }
        match grant.attempt_debit(params.amount, now) {
            Ok(()) => {
                self.pre_authorizations.insert(key, grant);
                proof {
                    lemma_grants_wf_insert(old(self).grants(), key as u128, grant);
                }
                Ok(TransferInstruction {
                    from_token_account: token_account,
                    to_token_account: destination_token_account,
                    mint,
                    amount: params.amount,
                })
            },
            Err(e) => Err(e),
        }
    }

    /// The stored grant for a pair, if any.
    pub fn get_pre_authorization(&self, token_account: u64, debit_authority: u64) -> (r: Option<
        PreAuthorization,
    >)
        ensures
            (match r {
                Some(g) => self.grants().contains_key(grant_key(token_account, debit_authority))
                    && g == self.grants()[grant_key(token_account, debit_authority)],
                None => !self.grants().contains_key(grant_key(token_account, debit_authority)),
            }),
    {
        let key = compute_grant_key(token_account, debit_authority);
        match self.pre_authorizations.get(&key) {
            Some(g) => Some(*g),
            None => None,
        }
    }

    /// The stored delegation for a token account, if any.
    pub fn get_smart_delegate(&self, token_account: u64) -> (r: Option<SmartDelegate>)
        ensures
            (match r {
                Some(d) => self.delegations().contains_key(token_account) && d
                    == self.delegations()[token_account],
                None => !self.delegations().contains_key(token_account),
            }),
    {
        match self.smart_delegates.get(&token_account) {
            Some(d) => Some(*d),
            None => None,
        }
    }
}

} // verus!
