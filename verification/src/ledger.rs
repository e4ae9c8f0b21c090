//! The ledger and the five operations on it.
//!
//! An operation either succeeds and changes the ledger as its model says,
//! or is refused with one error and changes nothing.

use crate::accounts::{ApproveUser, BuyShares, InitializeProperty, RevokeUser, WithdrawCapital};
use crate::actions::{Issuance, Payout};
use crate::address::{
    make_mint_signer_seeds, make_treasury_signer_seeds, mint_signer_seeds, treasury_signer_seeds,
};
use crate::errors::Errors;
use crate::identity::Identity;
use crate::model::LedgerView;
use crate::rules::{check_issue, check_withdrawal};
use crate::state::{Holding, KycEntry, PropertyConfig, ShareMint};
use crate::table::Table;
use vstd::prelude::*;

verus! {

/// The storage cells of all properties and participants, and the custody
/// pool.
pub struct Ledger {
    configs: Table<PropertyConfig>,
    mints: Table<ShareMint>,
    kyc: Table<KycEntry>,
    holdings: Table<Holding>,
    treasury: u64,
}

impl View for Ledger {
    type V = LedgerView;

    closed spec fn view(&self) -> LedgerView {
        LedgerView {
            configs: self.configs@,
            mints: self.mints@,
            kyc: self.kyc@,
            holdings: self.holdings@,
            treasury: self.treasury,
        }
    }
}

impl Ledger {
    /// The ledger's invariant: its stores are in order and what it records
    /// is a reachable state.
    pub closed spec fn wf(&self) -> bool {
        &&& self.configs.wf()
        &&& self.mints.wf()
        &&& self.kyc.wf()
        &&& self.holdings.wf()
        &&& self@.wf()
    }

    /// What a ledger in order records is a reachable state.
    pub proof fn lemma_wf(&self)
        requires
            self.wf(),
        ensures
            self@.wf(),
    {
    }

    /// A ledger with no property and no participant, whose pool holds
    /// `treasury`.
    pub fn new(treasury: u64) -> (ledger: Ledger)
        ensures
            ledger.wf(),
            ledger@ == (LedgerView { treasury, ..LedgerView::empty() }),
    {
        Ledger {
            configs: Table::new(),
            mints: Table::new(),
            kyc: Table::new(),
            holdings: Table::new(),
            treasury,
        }
    }

    /// The configuration of a property, if it was initialized.
    pub fn config(&self, property_id: u64) -> (config: Option<PropertyConfig>)
        requires
            self.wf(),
        ensures
            config == if self@.configs.contains_key(property_id) {
                Some(self@.configs[property_id])
            } else {
                None
            },
    {
        match self.configs.get(&property_id) {
            Some(found) => Some(*found),
            None => None,
        }
    }

    /// The issuance counter of a property, if it was initialized.
    pub fn mint(&self, property_id: u64) -> (mint: Option<ShareMint>)
        requires
            self.wf(),
        ensures
            mint == if self@.mints.contains_key(property_id) {
                Some(self@.mints[property_id])
            } else {
                None
            },
    {
        match self.mints.get(&property_id) {
            Some(found) => Some(*found),
            None => None,
        }
    }

    /// The verification record of a participant, if there is one.
    pub fn kyc_entry(&self, user: &Identity) -> (entry: Option<KycEntry>)
        requires
            self.wf(),
        ensures
            entry == if self@.kyc.contains_key(*user) {
                Some(self@.kyc[*user])
            } else {
                None
            },
    {
        match self.kyc.get(user) {
            Some(found) => Some(*found),
            None => None,
        }
    }

    /// How many shares of a property a participant holds.
    pub fn shares_held(&self, property_id: u64, owner: &Identity) -> (amount: u64)
        requires
            self.wf(),
        ensures
            amount == self@.shares_held(property_id, *owner),
    {
        match self.holdings.get(&(property_id, *owner)) {
            Some(found) => found.amount,
            None => 0,
        }
    }

    /// What the custody pool holds.
    pub fn treasury_balance(&self) -> (balance: u64)
        ensures
            balance == self@.treasury,
    {
        self.treasury
    }

    /// Pays `amount` into the custody pool. Where the pool cannot hold that
    /// much, nothing changes and `false` comes back.
    pub fn deposit(&mut self, amount: u64) -> (paid: bool)
        requires
            old(self).wf(),
        ensures
            final(self).wf(),
            paid == (old(self)@.treasury + amount <= u64::MAX),
            paid ==> final(self)@ == (LedgerView {
                treasury: (old(self)@.treasury + amount) as u64,
                ..old(self)@
            }),
            !paid ==> final(self)@ == old(self)@,
    {
        match self.treasury.checked_add(amount) {
            Some(sum) => {
                self.treasury = sum;
                proof {
                    assert(self@.configs == old(self)@.configs);
                    assert(self@.mints == old(self)@.mints);
                    assert(self@.kyc == old(self)@.kyc);
                    assert(self@.holdings == old(self)@.holdings);
                }
                true
            },
            None => false,
        }
    }
}

/// Creates the configuration of `property_id`, administered by the signer,
/// with nothing sold, and its issuance counter at zero. Refused with
/// `DuplicateAsset` exactly where the property was initialized before.
pub fn initialize_property(
    ledger: &mut Ledger,
    ctx: &InitializeProperty,
    property_id: u64,
    price_per_share: u64,
    max_shares: u64,
) -> (done: Result<(), Errors>)
    requires
        old(ledger).wf(),
    ensures
        final(ledger).wf(),
        match old(ledger)@.initialize_property(
            ctx.admin,
            ctx.bumps.property_config,
            property_id,
            price_per_share,
            max_shares,
        ) {
            Ok(next) => done == Ok::<(), Errors>(()) && final(ledger)@ == next,
            Err(refusal) => done == Err::<(), Errors>(refusal) && final(ledger)@ == old(ledger)@,
        },
{
    if ledger.configs.get(&property_id).is_some() {
        return Err(Errors::DuplicateAsset);
    }
    ledger.configs.put(
        PropertyConfig::new(
            property_id,
            ctx.admin,
            price_per_share,
            max_shares,
            ctx.bumps.property_config,
        ),
    );
    ledger.mints.put(ShareMint { property_id, supply: 0 });
    proof {
        old(ledger)@.lemma_operations_keep_wf(
            ctx.admin,
            ctx.bumps.property_config,
            property_id,
            price_per_share,
            max_shares,
        );
    }
    Ok(())
}

/// Creates or overwrites the verification record of the participant named
/// in `ctx`, so that it says verified. Always succeeds.
pub fn approve_user(ledger: &mut Ledger, ctx: &ApproveUser) -> (done: Result<(), Errors>)
    requires
        old(ledger).wf(),
    ensures
        final(ledger).wf(),
        done == Ok::<(), Errors>(()),
        final(ledger)@ == old(ledger)@.approve_user(ctx.user_to_approve),
{
    ledger.kyc.put(KycEntry::approved(ctx.user_to_approve));
    proof {
        old(ledger)@.lemma_operations_keep_wf(ctx.user_to_approve, 0, 0, 0, 0);
    }
    Ok(())
}

/// Makes the verification record of the participant named in `ctx` say not
/// verified. Refused with `UnknownIdentity` exactly where the participant
/// has no record.
pub fn revoke_user(ledger: &mut Ledger, ctx: &RevokeUser) -> (done: Result<(), Errors>)
    requires
        old(ledger).wf(),
    ensures
        final(ledger).wf(),
        match old(ledger)@.revoke_user(ctx.user_to_revoke) {
            Ok(next) => done == Ok::<(), Errors>(()) && final(ledger)@ == next,
            Err(refusal) => done == Err::<(), Errors>(refusal) && final(ledger)@ == old(ledger)@,
        },
{
    if ledger.kyc.get(&ctx.user_to_revoke).is_none() {
        return Err(Errors::UnknownIdentity);
    }
    ledger.kyc.put(KycEntry::revoked(ctx.user_to_revoke));
    proof {
        old(ledger)@.lemma_operations_keep_wf(ctx.user_to_revoke, 0, 0, 0, 0);
    }
    Ok(())
}

/// Issues `amount_of_shares` shares of an initialized property to the
/// receiver named in `ctx`. Refused, in this order, with
/// `UserNotKycVerified` where the receiver has no record that says
/// verified, with `Overflow` where the counter would leave its numeric
/// range, with `SupplyLimitReached` where the total would pass the
/// property's capacity. Otherwise the counter, the shares sold and the
/// receiver's holding all grow by `amount_of_shares`, and the issuance comes
/// back: authorized by the counter itself, which signs with the seeds of
/// this property's counter.
pub fn buy_shares(ledger: &mut Ledger, ctx: &BuyShares, property_id: u64, amount_of_shares: u64) -> (done:
    Result<Issuance, Errors>)
    requires
        old(ledger).wf(),
        old(ledger)@.configs.contains_key(property_id),
    ensures
        final(ledger).wf(),
        match old(ledger)@.buy_shares(ctx.receiver, property_id, amount_of_shares) {
            Ok(next) => final(ledger)@ == next && done.is_ok(),
            Err(refusal) => done == Err::<Issuance, Errors>(refusal) && final(ledger)@ == old(
                ledger,
            )@,
        },
        done matches Ok(issuance) ==> {
            &&& issuance.mint == ctx.mint
            &&& issuance.authority == ctx.mint
            &&& issuance.receiver == ctx.receiver
            &&& issuance.amount == amount_of_shares
            &&& issuance.signer_seeds.deep_view() == mint_signer_seeds(property_id, ctx.bumps.mint)
        },
{
    let verified = match ledger.kyc.get(&ctx.receiver) {
        Some(entry) => entry.is_verified,
        None => false,
    };
    let config = *ledger.configs.fetch(&property_id);
    let issued = ledger.mints.fetch(&property_id).supply;
    let total = match check_issue(verified, issued, amount_of_shares, config.max_shares) {
        Ok(total) => total,
        Err(refusal) => { return Err(refusal); },
    };
    let held = match ledger.holdings.get(&(property_id, ctx.receiver)) {
        Some(found) => found.amount,
        None => 0,
    };
    proof {
        old(ledger)@.lemma_operations_keep_wf(ctx.receiver, 0, property_id, 0, amount_of_shares);
        assert(held <= issued);
    }
    ledger.configs.put(PropertyConfig { shares_sold: total, ..config });
    ledger.mints.put(ShareMint { property_id, supply: total });
    ledger.holdings.put(
        Holding { property_id, owner: ctx.receiver, amount: held + amount_of_shares },
    );
    Ok(
        Issuance {
            mint: ctx.mint,
            receiver: ctx.receiver,
            authority: ctx.mint,
            amount: amount_of_shares,
            signer_seeds: make_mint_signer_seeds(property_id, ctx.bumps.mint),
        },
    )
}

/// Takes `amount` out of the custody pool for the signer named in `ctx`,
/// against an initialized property. Refused with `Unauthorized` where the
/// signer is not the property's administrator, whatever the pool holds;
/// then with `InsufficientFunds` where the pool holds less than `amount`.
/// Otherwise the pool loses exactly `amount`, nothing else changes, and the
/// payout to the signer comes back: authorized by the pool itself, which
/// signs with its own seeds, the same for every property.
pub fn withdraw_capital(ledger: &mut Ledger, ctx: &WithdrawCapital, property_id: u64, amount: u64) -> (done:
    Result<Payout, Errors>)
    requires
        old(ledger).wf(),
        old(ledger)@.configs.contains_key(property_id),
    ensures
        final(ledger).wf(),
        match old(ledger)@.withdraw_capital(ctx.admin, property_id, amount) {
            Ok(next) => final(ledger)@ == next && done.is_ok(),
            Err(refusal) => done == Err::<Payout, Errors>(refusal) && final(ledger)@ == old(
                ledger,
            )@,
        },
        done matches Ok(payout) ==> {
            &&& payout.pool == ctx.treasury
            &&& payout.recipient == ctx.admin
            &&& payout.amount == amount
            &&& payout.signer_seeds.deep_view() == treasury_signer_seeds(ctx.bumps.treasury)
        },
{
    let admin = ledger.configs.fetch(&property_id).admin;
    match check_withdrawal(&admin, &ctx.admin, ledger.treasury, amount) {
        Ok(left) => {
            ledger.treasury = left;
            Ok(
                Payout {
                    pool: ctx.treasury,
                    recipient: ctx.admin,
                    amount,
                    signer_seeds: make_treasury_signer_seeds(ctx.bumps.treasury),
                },
            )
        },
        Err(refusal) => Err(refusal),
    }
}

} // verus!
