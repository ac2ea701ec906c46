use vstd::prelude::*;

verus! {

/// Why an update of a voter weight record was refused.
#[derive(Clone, Copy, Debug, PartialEq, Eq, Structural)]
pub enum StakeVoterError {
    /// The registrar's governance program is not among the configured ones.
    AuthorityNotConfigured,
    /// Converting shares to tokens left the range of the integers in use.
    ArithmeticOverflow,
    /// The pool is not the one whose token carries the votes.
    PoolIndexMismatch,
    /// The voter weight record belongs to another realm than the registrar.
    InvalidVoterWeightRecordRealm,
    /// The voter weight record is for another governing token than the registrar.
    InvalidVoterWeightRecordMint,
    /// The token account is not the vault of the pool.
    InsuranceFundVaultMismatch,
    /// The stake belongs to someone else than the owner of the voter weight record.
    StakeAuthorityMismatch,
}

} // verus!
