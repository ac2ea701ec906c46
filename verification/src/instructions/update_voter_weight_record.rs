use vstd::prelude::*;

use crate::error::StakeVoterError;
use crate::state::{Clock, Registrar, VoterWeightRecord};
use crate::tools::drift_tools::{
    get_user_token_stake, token_stake, PoolSnapshot, StakeShareRecord, VaultAccount,
};

verus! {

/// The market whose insurance fund holds the governing token.
pub const NATIVE_TOKEN_SPOT_MARKET_INDEX: u16 = 96;

/// Everything that one update of a voter weight record reads, and the record
/// that it writes.
///
/// The weight is valid for the slot of the update only: the update belongs in
/// the same transaction as the governance instruction that reads the record.
#[derive(Clone, Debug, PartialEq, Eq)]
pub struct UpdateVoterWeightRecord {
    /// The voting registrar.
    pub registrar: Registrar,
    /// The record to update.
    pub voter_weight_record: VoterWeightRecord,
    /// The pool whose shares count as votes.
    pub spot_market: PoolSnapshot,
    /// The token account that backs the pool's shares.
    pub insurance_fund_vault: VaultAccount,
    /// The voter's stake in the pool.
    pub insurance_fund_stake: StakeShareRecord,
}

impl UpdateVoterWeightRecord {
    /// The first rule that the accounts break, in the order in which the
    /// rules are checked, or `Ok` if they fit together.
    pub open spec fn binding(self) -> Result<(), StakeVoterError> {
        if self.voter_weight_record.realm != self.registrar.realm {
            Err(StakeVoterError::InvalidVoterWeightRecordRealm)
        } else if self.voter_weight_record.governing_token_mint
            != self.registrar.governing_token_mint {
            Err(StakeVoterError::InvalidVoterWeightRecordMint)
        } else if self.spot_market.market_index != NATIVE_TOKEN_SPOT_MARKET_INDEX {
            Err(StakeVoterError::PoolIndexMismatch)
        } else if self.spot_market.vault != self.insurance_fund_vault.key {
            Err(StakeVoterError::InsuranceFundVaultMismatch)
        } else if self.insurance_fund_stake.authority
            != self.voter_weight_record.governing_token_owner {
            Err(StakeVoterError::StakeAuthorityMismatch)
        } else {
            Ok(())
        }
    }

    /// The weight that an update gives the record, or the reason why the
    /// update is refused.
    pub open spec fn weight(self) -> Result<u64, StakeVoterError> {
        if !self.registrar.allows(self.registrar.governance_program_id) {
            Err(StakeVoterError::AuthorityNotConfigured)
        } else {
            token_stake(self.insurance_fund_stake, self.spot_market, self.insurance_fund_vault.amount)
        }
    }

    /// The accounts after an update at `clock`: the record stamped with the
    /// weight, or everything as it was where the update is refused.
    pub open spec fn updated(self, clock: Clock) -> UpdateVoterWeightRecord {
        match self.weight() {
            Ok(weight) => UpdateVoterWeightRecord {
                voter_weight_record: self.voter_weight_record.stamped(weight, clock.slot),
                ..self
            },
            Err(_) => self,
        }
    }

    /// Checks that the accounts belong together: the record to the
    /// registrar's realm and mint, the pool to the governing token, the vault
    /// to the pool, and the stake to the record's owner.
    pub fn validate(&self) -> (result: Result<(), StakeVoterError>)
        ensures
            result == self.binding(),
    {
        if !self.voter_weight_record.realm.same_as(&self.registrar.realm) {
            return Err(StakeVoterError::InvalidVoterWeightRecordRealm);
        }
        if !self.voter_weight_record.governing_token_mint.same_as(
            &self.registrar.governing_token_mint,
        ) {
            return Err(StakeVoterError::InvalidVoterWeightRecordMint);
        }
        if self.spot_market.market_index != NATIVE_TOKEN_SPOT_MARKET_INDEX {
            return Err(StakeVoterError::PoolIndexMismatch);
        }
        if !self.spot_market.vault.same_as(&self.insurance_fund_vault.key) {
            return Err(StakeVoterError::InsuranceFundVaultMismatch);
        }
        if !self.insurance_fund_stake.authority.same_as(
            &self.voter_weight_record.governing_token_owner,
        ) {
            return Err(StakeVoterError::StakeAuthorityMismatch);
        }
        Ok(())
    }
}

/// Brings the voter weight record up to date with the voter's stake.
///
/// The registrar's governance program must be one of the configured ones.
/// The record then gets the stake in tokens as its weight, `clock`'s slot as
/// its expiry, and no restriction to an action or a target. Where the update
/// is refused nothing is written.
pub fn update_voter_weight_record(ctx: &mut UpdateVoterWeightRecord, clock: &Clock) -> (result:
    Result<(), StakeVoterError>)
    ensures
        result == match old(ctx).weight() {
            Ok(_) => Ok::<(), StakeVoterError>(()),
            Err(e) => Err(e),
        },
        *final(ctx) == old(ctx).updated(*clock),
{
    if !ctx.registrar.is_configured(&ctx.registrar.governance_program_id) {
        return Err(StakeVoterError::AuthorityNotConfigured);
    }
    let voter_weight: u64 = match get_user_token_stake(
        &ctx.insurance_fund_stake,
        &ctx.spot_market,
        ctx.insurance_fund_vault.amount,
        clock.unix_timestamp,
    ) {
        Ok(amount) => amount,
        Err(e) => {
            return Err(e);
        },
    };
    ctx.voter_weight_record.stamp(voter_weight, clock.slot);
    Ok(())
}

/// An update either writes the whole record or leaves everything as it was:
/// it is refused exactly where no weight can be given, and it never touches
/// anything but the record's weight, expiry and restriction.
pub proof fn lemma_update_is_all_or_nothing(accounts: UpdateVoterWeightRecord, clock: Clock)
    ensures
        accounts.weight() is Err ==> accounts.updated(clock) == accounts,
        accounts.weight() is Ok ==> accounts.updated(clock).voter_weight_record
            == accounts.voter_weight_record.stamped(accounts.weight()->Ok_0, clock.slot),
        accounts.updated(clock).registrar == accounts.registrar,
        accounts.updated(clock).spot_market == accounts.spot_market,
        accounts.updated(clock).insurance_fund_vault == accounts.insurance_fund_vault,
        accounts.updated(clock).insurance_fund_stake == accounts.insurance_fund_stake,
        accounts.updated(clock).voter_weight_record.realm == accounts.voter_weight_record.realm,
        accounts.updated(clock).voter_weight_record.governing_token_mint
            == accounts.voter_weight_record.governing_token_mint,
        accounts.updated(clock).voter_weight_record.governing_token_owner
            == accounts.voter_weight_record.governing_token_owner,
{
}

/// An update for a staker with a pending withdrawal writes the weight 0,
/// whatever the staker and the vault hold.
pub proof fn lemma_pending_withdrawal_zeroes_weight(accounts: UpdateVoterWeightRecord, clock: Clock)
    requires
        accounts.registrar.allows(accounts.registrar.governance_program_id),
        accounts.insurance_fund_stake.pending_withdrawal_shares != 0,
    ensures
        accounts.weight() == Ok::<u64, StakeVoterError>(0),
        accounts.updated(clock).voter_weight_record.voter_weight == 0,
{
}

/// A second update from the same snapshots at the same slot changes nothing:
/// it is refused or accepted as the first was, and leaves the record that the
/// first left.
pub proof fn lemma_update_is_idempotent(accounts: UpdateVoterWeightRecord, clock: Clock)
    ensures
        accounts.updated(clock).weight() == accounts.weight(),
        accounts.updated(clock).updated(clock) == accounts.updated(clock),
{
}

/// What an update writes depends on the snapshots and the slot alone, not on
/// the weight, expiry or restriction that the record had before.
pub proof fn lemma_update_forgets_old_weight(
    first: UpdateVoterWeightRecord,
    second: UpdateVoterWeightRecord,
    clock: Clock,
)
    requires
        first.registrar == second.registrar,
        first.spot_market == second.spot_market,
        first.insurance_fund_vault == second.insurance_fund_vault,
        first.insurance_fund_stake == second.insurance_fund_stake,
        first.voter_weight_record.realm == second.voter_weight_record.realm,
        first.voter_weight_record.governing_token_mint
            == second.voter_weight_record.governing_token_mint,
        first.voter_weight_record.governing_token_owner
            == second.voter_weight_record.governing_token_owner,
        first.weight() is Ok,
    ensures
        first.weight() == second.weight(),
        first.updated(clock) == second.updated(clock),
{
}

/// After an update the record expires with the slot of the update: it can
/// be used at that slot and is stale at every later one. It is restricted to
/// no action and no target.
pub proof fn lemma_updated_record_expires_with_slot(
    accounts: UpdateVoterWeightRecord,
    clock: Clock,
    later: u64,
)
    requires
        accounts.weight() is Ok,
    ensures
        accounts.updated(clock).voter_weight_record.voter_weight_expiry == Some(clock.slot),
        accounts.updated(clock).voter_weight_record.weight_action.is_none(),
        accounts.updated(clock).voter_weight_record.weight_action_target.is_none(),
        !accounts.updated(clock).voter_weight_record.stale_at(clock.slot),
        later > clock.slot ==> accounts.updated(clock).voter_weight_record.stale_at(later),
{
}

} // verus!
