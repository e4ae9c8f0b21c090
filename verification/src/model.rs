//! The ledger as a mathematical value, and what each operation makes of it.

use crate::errors::Errors;
use crate::identity::Identity;
use crate::rules::{balance_after, issued_after};
use crate::state::{Holding, KycEntry, PropertyConfig, ShareMint};
use vstd::prelude::*;

verus! {

/// Everything the ledger records.
pub struct LedgerView {
    /// The configuration of each initialized property, by identifier.
    pub configs: Map<u64, PropertyConfig>,
    /// The issuance counter of each initialized property, by identifier.
    pub mints: Map<u64, ShareMint>,
    /// The verification record of each participant ever approved.
    pub kyc: Map<Identity, KycEntry>,
    /// The holding of each participant who ever received shares of a property.
    pub holdings: Map<(u64, Identity), Holding>,
    /// The balance of the one custody pool.
    pub treasury: u64,
}

impl LedgerView {
    /// A ledger with no property, no participant and an empty pool.
    pub open spec fn empty() -> LedgerView {
        LedgerView {
            configs: Map::empty(),
            mints: Map::empty(),
            kyc: Map::empty(),
            holdings: Map::empty(),
            treasury: 0,
        }
    }

    /// What holds of every ledger that the operations can reach: each
    /// property has a configuration and a counter under its own identifier,
    /// the shares sold are the shares issued and never more than the
    /// property allows, each record lies under the key it names, and nobody
    /// holds more shares of a property than were issued.
    pub open spec fn wf(self) -> bool {
        &&& forall|id: u64| self.configs.contains_key(id) <==> self.mints.contains_key(id)
        &&& forall|id: u64| #[trigger]
            self.configs.contains_key(id) ==> {
                &&& self.configs[id].property_id == id
                &&& self.mints[id].property_id == id
                &&& self.configs[id].shares_sold == self.mints[id].supply
                &&& self.configs[id].shares_sold <= self.configs[id].max_shares
            }
        &&& forall|user: Identity| #[trigger]
            self.kyc.contains_key(user) ==> self.kyc[user].user == user
        &&& forall|key: (u64, Identity)| #[trigger]
            self.holdings.contains_key(key) ==> {
                &&& self.holdings[key].property_id == key.0
                &&& self.holdings[key].owner == key.1
                &&& self.mints.contains_key(key.0)
                &&& self.holdings[key].amount <= self.mints[key.0].supply
            }
    }

    /// Whether `user` has a verification record that says verified.
    pub open spec fn is_verified(self, user: Identity) -> bool {
        self.kyc.contains_key(user) && self.kyc[user].is_verified
    }

    /// How many shares of `property_id` the participant `owner` holds.
    pub open spec fn shares_held(self, property_id: u64, owner: Identity) -> u64 {
        if self.holdings.contains_key((property_id, owner)) {
            self.holdings[(property_id, owner)].amount
        } else {
            0
        }
    }

    /// Initializing a property: refused where the identifier is taken,
    /// otherwise the property gets its configuration, with nothing sold, and
    /// a counter at zero.
    pub open spec fn initialize_property(
        self,
        admin: Identity,
        bump: u8,
        property_id: u64,
        price_per_share: u64,
        max_shares: u64,
    ) -> Result<LedgerView, Errors> {
        if self.configs.contains_key(property_id) {
            Err(Errors::DuplicateAsset)
        } else {
            Ok(
                LedgerView {
                    configs: self.configs.insert(
                        property_id,
                        PropertyConfig {
                            property_id,
                            admin,
                            price_per_share,
                            max_shares,
                            shares_sold: 0,
                            bump,
                        },
                    ),
                    mints: self.mints.insert(property_id, ShareMint { property_id, supply: 0 }),
                    ..self
                },
            )
        }
    }

    /// Approving a participant: the record is created or overwritten, and
    /// says verified.
    pub open spec fn approve_user(self, user: Identity) -> LedgerView {
        LedgerView { kyc: self.kyc.insert(user, KycEntry { user, is_verified: true }), ..self }
    }

    /// Revoking a participant: refused where there is no record, otherwise
    /// the record says not verified.
    pub open spec fn revoke_user(self, user: Identity) -> Result<LedgerView, Errors> {
        if !self.kyc.contains_key(user) {
            Err(Errors::UnknownIdentity)
        } else {
            Ok(
                LedgerView {
                    kyc: self.kyc.insert(user, KycEntry { user, is_verified: false }),
                    ..self
                },
            )
        }
    }

    /// Issuing `amount` shares of an initialized property to `receiver`. The
    /// checks come in this order: the receiver is verified, the counter does
    /// not leave its numeric range, the total does not pass the property's
    /// capacity. Then counter, shares sold and the receiver's holding all
    /// grow by `amount`.
    pub open spec fn buy_shares(self, receiver: Identity, property_id: u64, amount: u64) -> Result<
        LedgerView,
        Errors,
    >
        recommends
            self.configs.contains_key(property_id),
    {
        let config = self.configs[property_id];
        match issued_after(
            self.is_verified(receiver),
            self.mints[property_id].supply,
            amount,
            config.max_shares,
        ) {
            Err(refusal) => Err(refusal),
            Ok(total) => Ok(
                LedgerView {
                    configs: self.configs.insert(
                        property_id,
                        PropertyConfig { shares_sold: total, ..config },
                    ),
                    mints: self.mints.insert(property_id, ShareMint { property_id, supply: total }),
                    holdings: self.holdings.insert(
                        (property_id, receiver),
                        Holding {
                            property_id,
                            owner: receiver,
                            amount: (self.shares_held(property_id, receiver) + amount) as u64,
                        },
                    ),
                    ..self
                },
            ),
        }
    }

    /// Withdrawing `amount` from the pool against an initialized property:
    /// refused where the signer is not the property's administrator, then
    /// where the pool holds less than `amount`; otherwise the pool loses
    /// exactly `amount` and nothing else changes.
    pub open spec fn withdraw_capital(self, signer: Identity, property_id: u64, amount: u64) -> Result<
        LedgerView,
        Errors,
    >
        recommends
            self.configs.contains_key(property_id),
    {
        match balance_after(self.configs[property_id].admin, signer, self.treasury, amount) {
            Err(refusal) => Err(refusal),
            Ok(left) => Ok(LedgerView { treasury: left, ..self }),
        }
    }

    /// Every operation keeps a reachable ledger reachable.
    pub proof fn lemma_operations_keep_wf(
        self,
        who: Identity,
        bump: u8,
        property_id: u64,
        price_per_share: u64,
        amount: u64,
    )
        requires
            self.wf(),
        ensures
            self.initialize_property(who, bump, property_id, price_per_share, amount) matches Ok(
                next,
            ) ==> next.wf(),
            self.approve_user(who).wf(),
            self.revoke_user(who) matches Ok(next) ==> next.wf(),
            self.configs.contains_key(property_id) ==> (self.buy_shares(
                who,
                property_id,
                amount,
            ) matches Ok(next) ==> next.wf()),
            self.configs.contains_key(property_id) ==> (self.withdraw_capital(
                who,
                property_id,
                amount,
            ) matches Ok(next) ==> next.wf()),
    {
        if let Ok(next) = self.initialize_property(who, bump, property_id, price_per_share, amount) {
            assert(next.wf());
        }
        if self.configs.contains_key(property_id) {
            if let Ok(next) = self.buy_shares(who, property_id, amount) {
                assert(self.mints.contains_key(property_id));
                if self.holdings.contains_key((property_id, who)) {
                    assert(self.holdings[(property_id, who)].amount
                        <= self.mints[property_id].supply);
                }
                assert forall|key: (u64, Identity)| #[trigger]
                    next.holdings.contains_key(key) implies {
                    &&& next.holdings[key].property_id == key.0
                    &&& next.holdings[key].owner == key.1
                    &&& next.mints.contains_key(key.0)
                    &&& next.holdings[key].amount <= next.mints[key.0].supply
                } by {
                    if key != (property_id, who) {
                        assert(self.holdings.contains_key(key));
                    }
                }
                assert(next.wf());
            }
        }
    }
}

} // verus!
