//! What each operation is handed: who signed, whom it concerns, and the
//! derived addresses and bumps of the cells it touches.

use crate::address::{
    config_address, config_seeds, kyc_address, kyc_seeds, mint_address, mint_seeds,
    program_address, treasury_address, treasury_seeds,
};
use crate::identity::Identity;
use vstd::prelude::*;

verus! {

/// The bumps of the cells that initializing a property touches.
#[derive(Clone, Copy, Debug, PartialEq, Eq)]
pub struct InitializePropertyBumps {
    pub property_config: u8,
    pub mint: u8,
    pub treasury: u8,
}

/// What initializing a property is handed.
#[derive(Clone, Copy, Debug, PartialEq, Eq)]
pub struct InitializeProperty {
    /// The signer, who becomes the property's administrator.
    pub admin: Identity,
    /// The address of the property's configuration cell.
    pub property_config: Identity,
    /// The address of the property's issuance counter.
    pub mint: Identity,
    /// The address of the custody pool.
    pub treasury: Identity,
    pub bumps: InitializePropertyBumps,
}

/// The bump of the cell that approving a participant touches.
#[derive(Clone, Copy, Debug, PartialEq, Eq)]
pub struct ApproveUserBumps {
    pub kyc_entry: u8,
}

/// What approving a participant is handed.
#[derive(Clone, Copy, Debug, PartialEq, Eq)]
pub struct ApproveUser {
    /// The signer; any administrator may approve.
    pub admin: Identity,
    /// The participant to approve.
    pub user_to_approve: Identity,
    /// The address of the participant's verification record.
    pub kyc_entry: Identity,
    pub bumps: ApproveUserBumps,
}

/// The bump of the cell that revoking a participant touches.
#[derive(Clone, Copy, Debug, PartialEq, Eq)]
pub struct RevokeUserBumps {
    pub kyc_entry: u8,
}

/// What revoking a participant is handed.
#[derive(Clone, Copy, Debug, PartialEq, Eq)]
pub struct RevokeUser {
    /// The signer; any administrator may revoke.
    pub admin: Identity,
    /// The participant to revoke.
    pub user_to_revoke: Identity,
    /// The address of the participant's verification record.
    pub kyc_entry: Identity,
    pub bumps: RevokeUserBumps,
}

/// The bumps of the cells that a purchase touches.
#[derive(Clone, Copy, Debug, PartialEq, Eq)]
pub struct BuySharesBumps {
    pub property_config: u8,
    pub kyc_entry: u8,
    pub mint: u8,
}

/// What a purchase is handed.
#[derive(Clone, Copy, Debug, PartialEq, Eq)]
pub struct BuyShares {
    /// The signer, who pays for the transaction.
    pub buyer: Identity,
    /// The participant whose holding is credited.
    pub receiver: Identity,
    /// The address of the property's configuration cell.
    pub property_config: Identity,
    /// The address of the receiver's verification record.
    pub kyc_entry: Identity,
    /// The address of the property's issuance counter.
    pub mint: Identity,
    pub bumps: BuySharesBumps,
}

/// The bumps of the cells that a withdrawal touches.
#[derive(Clone, Copy, Debug, PartialEq, Eq)]
pub struct WithdrawCapitalBumps {
    pub property_config: u8,
    pub treasury: u8,
}

/// What a withdrawal is handed.
#[derive(Clone, Copy, Debug, PartialEq, Eq)]
pub struct WithdrawCapital {
    /// The signer, who claims to be the property's administrator.
    pub admin: Identity,
    /// The address of the property's configuration cell.
    pub property_config: Identity,
    /// The address of the custody pool.
    pub treasury: Identity,
    pub bumps: WithdrawCapitalBumps,
}

/// Whether `seeds` derive the address `address` with the bump `bump` under
/// `program`.
pub open spec fn derives(seeds: Seq<Seq<u8>>, program: Identity, address: Identity, bump: u8) -> bool {
    program_address(seeds, program@) == Some((address@, bump))
}

impl InitializeProperty {
    /// Whether the addresses and bumps are the ones derived for
    /// `property_id` under `program`.
    pub open spec fn resolved(&self, property_id: u64, program: Identity) -> bool {
        &&& derives(config_seeds(property_id), program, self.property_config, self.bumps.property_config)
        &&& derives(mint_seeds(property_id), program, self.mint, self.bumps.mint)
        &&& derives(treasury_seeds(), program, self.treasury, self.bumps.treasury)
    }

    /// Derives the cells for initializing `property_id`, signed by `admin`.
    /// Nothing comes back exactly where one of the addresses cannot be
    /// derived.
    pub fn resolve(admin: Identity, property_id: u64, program: &Identity) -> (accounts: Option<
        InitializeProperty,
    >)
        ensures
            accounts.is_none() <==> (program_address(config_seeds(property_id), program@).is_none()
                || program_address(mint_seeds(property_id), program@).is_none()
                || program_address(treasury_seeds(), program@).is_none()),
            accounts matches Some(found) ==> found.admin == admin && found.resolved(
                property_id,
                *program,
            ),
    {
        let config = config_address(property_id, program);
        let mint = mint_address(property_id, program);
        let treasury = treasury_address(program);
        match (config, mint, treasury) {
            (Some((property_config, config_bump)), Some((mint, mint_bump)), Some((treasury, treasury_bump))) => {
                Some(
                    InitializeProperty {
                        admin,
                        property_config,
                        mint,
                        treasury,
                        bumps: InitializePropertyBumps {
                            property_config: config_bump,
                            mint: mint_bump,
                            treasury: treasury_bump,
                        },
                    },
                )
            },
            _ => None,
        }
    }
}

impl ApproveUser {
    /// Whether the address and bump are the ones derived for the
    /// participant under `program`.
    pub open spec fn resolved(&self, program: Identity) -> bool {
        derives(kyc_seeds(self.user_to_approve), program, self.kyc_entry, self.bumps.kyc_entry)
    }

    /// Derives the cell for approving `user_to_approve`, signed by `admin`.
    /// Nothing comes back exactly where the address cannot be derived.
    pub fn resolve(admin: Identity, user_to_approve: Identity, program: &Identity) -> (accounts: Option<
        ApproveUser,
    >)
        ensures
            accounts.is_none() <==> program_address(kyc_seeds(user_to_approve), program@).is_none(),
            accounts matches Some(found) ==> found.admin == admin && found.user_to_approve
                == user_to_approve && found.resolved(*program),
    {
        match kyc_address(&user_to_approve, program) {
            Some((kyc_entry, bump)) => Some(
                ApproveUser {
                    admin,
                    user_to_approve,
                    kyc_entry,
                    bumps: ApproveUserBumps { kyc_entry: bump },
                },
            ),
            None => None,
        }
    }
}

impl RevokeUser {
    /// Whether the address and bump are the ones derived for the
    /// participant under `program`.
    pub open spec fn resolved(&self, program: Identity) -> bool {
        derives(kyc_seeds(self.user_to_revoke), program, self.kyc_entry, self.bumps.kyc_entry)
    }

    /// Derives the cell for revoking `user_to_revoke`, signed by `admin`.
    /// Nothing comes back exactly where the address cannot be derived.
    pub fn resolve(admin: Identity, user_to_revoke: Identity, program: &Identity) -> (accounts: Option<
        RevokeUser,
    >)
        ensures
            accounts.is_none() <==> program_address(kyc_seeds(user_to_revoke), program@).is_none(),
            accounts matches Some(found) ==> found.admin == admin && found.user_to_revoke
                == user_to_revoke && found.resolved(*program),
    {
        match kyc_address(&user_to_revoke, program) {
            Some((kyc_entry, bump)) => Some(
                RevokeUser {
                    admin,
                    user_to_revoke,
                    kyc_entry,
                    bumps: RevokeUserBumps { kyc_entry: bump },
                },
            ),
            None => None,
        }
    }
}

impl BuyShares {
    /// Whether the addresses and bumps are the ones derived for
    /// `property_id` and the receiver under `program`.
    pub open spec fn resolved(&self, property_id: u64, program: Identity) -> bool {
        &&& derives(config_seeds(property_id), program, self.property_config, self.bumps.property_config)
        &&& derives(kyc_seeds(self.receiver), program, self.kyc_entry, self.bumps.kyc_entry)
        &&& derives(mint_seeds(property_id), program, self.mint, self.bumps.mint)
    }

    /// Derives the cells for a purchase of shares of `property_id` by
    /// `buyer` for `receiver`. Nothing comes back exactly where one of the
    /// addresses cannot be derived.
    pub fn resolve(buyer: Identity, receiver: Identity, property_id: u64, program: &Identity) -> (accounts: Option<
        BuyShares,
    >)
        ensures
            accounts.is_none() <==> (program_address(config_seeds(property_id), program@).is_none()
                || program_address(kyc_seeds(receiver), program@).is_none() || program_address(
                mint_seeds(property_id),
                program@,
            ).is_none()),
            accounts matches Some(found) ==> found.buyer == buyer && found.receiver == receiver
                && found.resolved(property_id, *program),
    {
        let config = config_address(property_id, program);
        let kyc = kyc_address(&receiver, program);
        let mint = mint_address(property_id, program);
        match (config, kyc, mint) {
            (Some((property_config, config_bump)), Some((kyc_entry, kyc_bump)), Some((mint, mint_bump))) => {
                Some(
                    BuyShares {
                        buyer,
                        receiver,
                        property_config,
                        kyc_entry,
                        mint,
                        bumps: BuySharesBumps {
                            property_config: config_bump,
                            kyc_entry: kyc_bump,
                            mint: mint_bump,
                        },
                    },
                )
            },
            _ => None,
        }
    }
}

impl WithdrawCapital {
    /// Whether the addresses and bumps are the ones derived for
    /// `property_id` under `program`.
    pub open spec fn resolved(&self, property_id: u64, program: Identity) -> bool {
        &&& derives(config_seeds(property_id), program, self.property_config, self.bumps.property_config)
        &&& derives(treasury_seeds(), program, self.treasury, self.bumps.treasury)
    }

    /// Derives the cells for a withdrawal against `property_id`, signed by
    /// `admin`. Nothing comes back exactly where one of the addresses cannot
    /// be derived.
    pub fn resolve(admin: Identity, property_id: u64, program: &Identity) -> (accounts: Option<
        WithdrawCapital,
    >)
        ensures
            accounts.is_none() <==> (program_address(config_seeds(property_id), program@).is_none()
                || program_address(treasury_seeds(), program@).is_none()),
            accounts matches Some(found) ==> found.admin == admin && found.resolved(
                property_id,
                *program,
            ),
    {
        let config = config_address(property_id, program);
        let treasury = treasury_address(program);
        match (config, treasury) {
            (Some((property_config, config_bump)), Some((treasury, treasury_bump))) => Some(
                WithdrawCapital {
                    admin,
                    property_config,
                    treasury,
                    bumps: WithdrawCapitalBumps {
                        property_config: config_bump,
                        treasury: treasury_bump,
                    },
                },
            ),
            _ => None,
        }
    }
}

} // verus!
