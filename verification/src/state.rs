use vstd::prelude::*;

verus! {

/// The 32 bytes that name an account or a program.
#[derive(Clone, Copy, Debug, PartialEq, Eq)]
pub struct Address {
    pub bytes: [u8; 32],
}

impl Address {
    /// Whether two addresses name the same thing: all 32 bytes agree.
    pub fn same_as(&self, other: &Address) -> (same: bool)
        ensures
            same == (*self == *other),
    {
        let mut i: usize = 0;
        while i < 32
            invariant
                i <= 32,
                forall|j: int| 0 <= j < i ==> self.bytes[j] == other.bytes[j],
            decreases 32 - i,
        {
            if self.bytes[i] != other.bytes[i] {
                return false;
            }
            i += 1;
        }
        assert(self.bytes =~= other.bytes);
        true
    }
}

/// One governance program that the registrar accepts.
#[derive(Clone, Copy, Debug, PartialEq, Eq)]
pub struct GovernanceProgramConfig {
    pub program_id: Address,
}

/// The configuration of one voting plugin instance. It is fixed when the
/// registrar is created; an update only reads it.
#[derive(Clone, Debug, PartialEq, Eq)]
pub struct Registrar {
    /// The governance program on whose behalf weights are updated.
    pub governance_program_id: Address,
    /// The realm that the registrar belongs to.
    pub realm: Address,
    /// The mint of the realm's governing token.
    pub governing_token_mint: Address,
    /// The governance programs that may ask for weights, in the order in
    /// which they were configured.
    pub governance_program_configs: Vec<GovernanceProgramConfig>,
}

impl Registrar {
    /// `program_id` is one of the configured governance programs.
    pub open spec fn allows(&self, program_id: Address) -> bool {
        exists|i: int|
            0 <= i < self.governance_program_configs@.len()
                && (#[trigger] self.governance_program_configs@[i]).program_id == program_id
    }

    /// Looks `program_id` up among the configured governance programs.
    pub fn is_configured(&self, program_id: &Address) -> (found: bool)
        ensures
            found == self.allows(*program_id),
    {
        let mut i: usize = 0;
        while i < self.governance_program_configs.len()
            invariant
                i <= self.governance_program_configs@.len(),
                forall|j: int|
                    0 <= j < i ==> (#[trigger] self.governance_program_configs@[j]).program_id
                        != *program_id,
            decreases self.governance_program_configs@.len() - i,
        {
            if self.governance_program_configs[i].program_id.same_as(program_id) {
                return true;
            }
            i += 1;
        }
        false
    }
}

/// What a voter's weight may be restricted to.
#[derive(Clone, Copy, Debug, PartialEq, Eq)]
pub enum VoterWeightAction {
    CastVote,
    CommentProposal,
    CreateGovernance,
    CreateProposal,
    SignOffProposal,
}

/// The slot and the time at which an update runs.
#[derive(Clone, Copy, Debug, PartialEq, Eq)]
pub struct Clock {
    pub slot: u64,
    pub unix_timestamp: i64,
}

/// The voting power of one owner of the governing token, as the governance
/// program reads it.
#[derive(Clone, Copy, Debug, PartialEq, Eq)]
pub struct VoterWeightRecord {
    pub realm: Address,
    pub governing_token_mint: Address,
    pub governing_token_owner: Address,
    /// The weight, in tokens.
    pub voter_weight: u64,
    /// The last slot at which the weight may be used; `None` if it never expires.
    pub voter_weight_expiry: Option<u64>,
    /// The action that the weight is restricted to, if any.
    pub weight_action: Option<VoterWeightAction>,
    /// The target that the weight is restricted to, if any.
    pub weight_action_target: Option<Address>,
}

impl VoterWeightRecord {
    /// The record with a weight stamped for `slot` alone and for any action on
    /// any target. Whom the record belongs to stays as it was.
    pub open spec fn stamped(self, weight: u64, slot: u64) -> VoterWeightRecord {
        VoterWeightRecord {
            voter_weight: weight,
            voter_weight_expiry: Some(slot),
            weight_action: None,
            weight_action_target: None,
            ..self
        }
    }

    /// The weight may no longer be used at `slot`: the record expired before it.
    pub open spec fn stale_at(self, slot: u64) -> bool {
        match self.voter_weight_expiry {
            Some(expiry) => slot > expiry,
            None => false,
        }
    }

    /// Whether a reader at `slot` must leave the weight unused.
    pub fn is_stale_at(&self, slot: u64) -> (stale: bool)
        ensures
            stale == self.stale_at(slot),
    {
        match self.voter_weight_expiry {
            Some(expiry) => slot > expiry,
            None => false,
        }
    }

    /// Writes `weight` into the record, valid at `slot` only and for any
    /// action on any target.
    pub fn stamp(&mut self, weight: u64, slot: u64)
        ensures
            *final(self) == old(self).stamped(weight, slot),
    {
        self.voter_weight = weight;
        self.voter_weight_expiry = Some(slot);
        self.weight_action = None;
        self.weight_action_target = None;
    }
}

} // verus!
