//! The storage cells: what is recorded of a property, of its shares, of a
//! participant's verification and of a participant's holding.

use crate::identity::Identity;
use crate::table::Record;
use vstd::prelude::*;

verus! {

/// The configuration of one property.
#[derive(Clone, Copy, Debug, PartialEq, Eq)]
pub struct PropertyConfig {
    /// The identifier of the property; never changes.
    pub property_id: u64,
    /// Who initialized the property and may withdraw against it.
    pub admin: Identity,
    /// The price of one share; recorded, not enforced.
    pub price_per_share: u64,
    /// How many shares may ever be issued.
    pub max_shares: u64,
    /// How many shares have been issued so far.
    pub shares_sold: u64,
    /// The bump of the cell's derived address.
    pub bump: u8,
}

impl PropertyConfig {
    /// The configuration of a property on which nothing was sold yet.
    pub fn new(property_id: u64, admin: Identity, price_per_share: u64, max_shares: u64, bump: u8) -> (config:
        PropertyConfig)
        ensures
            config == (PropertyConfig {
                property_id,
                admin,
                price_per_share,
                max_shares,
                shares_sold: 0,
                bump,
            }),
    {
        PropertyConfig { property_id, admin, price_per_share, max_shares, shares_sold: 0, bump }
    }
}

impl Record for PropertyConfig {
    type Key = u64;

    open spec fn key(&self) -> u64 {
        self.property_id
    }

    fn key_of(&self) -> (key: u64) {
        self.property_id
    }

    fn has_key(&self, key: &u64) -> (yes: bool) {
        self.property_id == *key
    }
}

/// The issuance counter of one property: the shares in existence.
#[derive(Clone, Copy, Debug, PartialEq, Eq)]
pub struct ShareMint {
    /// The property whose shares are counted.
    pub property_id: u64,
    /// How many shares have been issued.
    pub supply: u64,
}

impl Record for ShareMint {
    type Key = u64;

    open spec fn key(&self) -> u64 {
        self.property_id
    }

    fn key_of(&self) -> (key: u64) {
        self.property_id
    }

    fn has_key(&self, key: &u64) -> (yes: bool) {
        self.property_id == *key
    }
}

/// The verification record of one participant, shared by all properties.
#[derive(Clone, Copy, Debug, PartialEq, Eq)]
pub struct KycEntry {
    /// The participant.
    pub user: Identity,
    /// Whether the participant may receive shares.
    pub is_verified: bool,
}

impl KycEntry {
    /// The record of a participant who is verified.
    pub fn approved(user: Identity) -> (entry: KycEntry)
        ensures
            entry == (KycEntry { user, is_verified: true }),
    {
        KycEntry { user, is_verified: true }
    }

    /// The record of a participant who is no longer verified.
    pub fn revoked(user: Identity) -> (entry: KycEntry)
        ensures
            entry == (KycEntry { user, is_verified: false }),
    {
        KycEntry { user, is_verified: false }
    }
}

impl Record for KycEntry {
    type Key = Identity;

    open spec fn key(&self) -> Identity {
        self.user
    }

    fn key_of(&self) -> (key: Identity) {
        self.user
    }

    fn has_key(&self, key: &Identity) -> (yes: bool) {
        self.user == *key
    }
}

/// The shares of one property that one participant holds.
#[derive(Clone, Copy, Debug, PartialEq, Eq)]
pub struct Holding {
    /// The property.
    pub property_id: u64,
    /// The participant who holds the shares.
    pub owner: Identity,
    /// How many shares the participant holds.
    pub amount: u64,
}

impl Record for Holding {
    type Key = (u64, Identity);

    open spec fn key(&self) -> (u64, Identity) {
        (self.property_id, self.owner)
    }

    fn key_of(&self) -> (key: (u64, Identity)) {
        (self.property_id, self.owner)
    }

    fn has_key(&self, key: &(u64, Identity)) -> (yes: bool) {
        self.property_id == key.0 && self.owner == key.1
    }
}

} // verus!
