//! What a successful operation asks of the host: the shares to issue, or the
//! funds to pay out, each with the seeds by which the cell that authorizes
//! the step signs for itself.

use crate::identity::Identity;
use vstd::prelude::*;

verus! {

/// Shares to be issued by a property's issuance counter.
#[derive(Clone, Debug, PartialEq, Eq)]
pub struct Issuance {
    /// The address of the issuance counter.
    pub mint: Identity,
    /// The participant whose holding is credited.
    pub receiver: Identity,
    /// Who authorizes the step: the counter itself.
    pub authority: Identity,
    /// How many shares are issued.
    pub amount: u64,
    /// The seeds with which the counter signs.
    pub signer_seeds: Vec<Vec<u8>>,
}

/// Funds to be paid out of the custody pool.
#[derive(Clone, Debug, PartialEq, Eq)]
pub struct Payout {
    /// The address of the custody pool, which authorizes the step itself.
    pub pool: Identity,
    /// Who is credited.
    pub recipient: Identity,
    /// How much leaves the pool.
    pub amount: u64,
    /// The seeds with which the pool signs.
    pub signer_seeds: Vec<Vec<u8>>,
}

} // verus!
