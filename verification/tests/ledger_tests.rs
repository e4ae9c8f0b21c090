use token_sale::accounts::{
    ApproveUser, ApproveUserBumps, BuyShares, BuySharesBumps, InitializeProperty,
    InitializePropertyBumps, RevokeUser, RevokeUserBumps, WithdrawCapital, WithdrawCapitalBumps,
};
use token_sale::actions::{Issuance, Payout};
use token_sale::errors::Errors;
use token_sale::identity::Identity;
use token_sale::ledger::{
    approve_user, buy_shares, initialize_property, revoke_user, withdraw_capital, Ledger,
};
use token_sale::rules::{check_issue, check_withdrawal};
use token_sale::state::{KycEntry, PropertyConfig, ShareMint};

fn who(n: u8) -> Identity {
    Identity::new([n; 32])
}

fn init_ctx(admin: Identity) -> InitializeProperty {
    InitializeProperty {
        admin,
        property_config: who(200),
        mint: who(201),
        treasury: who(202),
        bumps: InitializePropertyBumps { property_config: 254, mint: 253, treasury: 252 },
    }
}

fn approve_ctx(user: Identity) -> ApproveUser {
    ApproveUser {
        admin: who(1),
        user_to_approve: user,
        kyc_entry: who(203),
        bumps: ApproveUserBumps { kyc_entry: 255 },
    }
}

fn revoke_ctx(user: Identity) -> RevokeUser {
    RevokeUser {
        admin: who(1),
        user_to_revoke: user,
        kyc_entry: who(203),
        bumps: RevokeUserBumps { kyc_entry: 255 },
    }
}

fn buy_ctx(receiver: Identity) -> BuyShares {
    BuyShares {
        buyer: who(9),
        receiver,
        property_config: who(200),
        kyc_entry: who(203),
        mint: who(201),
        bumps: BuySharesBumps { property_config: 254, kyc_entry: 255, mint: 253 },
    }
}

fn withdraw_ctx(admin: Identity) -> WithdrawCapital {
    WithdrawCapital {
        admin,
        property_config: who(200),
        treasury: who(202),
        bumps: WithdrawCapitalBumps { property_config: 254, treasury: 252 },
    }
}

fn buy(ledger: &mut Ledger, receiver: Identity, property_id: u64, amount: u64) -> Result<(), Errors> {
    assert!(ledger.config(property_id).is_some());
    buy_shares(ledger, &buy_ctx(receiver), property_id, amount).map(|_| ())
}

fn paid(recipient: Identity, amount: u64) -> Result<Payout, Errors> {
    Ok(Payout {
        pool: who(202),
        recipient,
        amount,
        signer_seeds: vec![b"treasury".to_vec(), vec![252u8]],
    })
}

fn withdraw(
    ledger: &mut Ledger,
    signer: Identity,
    property_id: u64,
    amount: u64,
) -> Result<Payout, Errors> {
    assert!(ledger.config(property_id).is_some());
    withdraw_capital(ledger, &withdraw_ctx(signer), property_id, amount)
}

#[test]
fn new_ledger_is_empty() {
    let ledger = Ledger::new(500);
    assert_eq!(ledger.treasury_balance(), 500);
    assert_eq!(ledger.config(1), None);
    assert_eq!(ledger.mint(1), None);
    assert_eq!(ledger.kyc_entry(&who(3)), None);
    assert_eq!(ledger.shares_held(1, &who(3)), 0);
}

#[test]
fn initialize_records_the_configuration() {
    let mut ledger = Ledger::new(0);
    assert_eq!(initialize_property(&mut ledger, &init_ctx(who(1)), 7, 100, 1000), Ok(()));
    assert_eq!(
        ledger.config(7),
        Some(PropertyConfig {
            property_id: 7,
            admin: who(1),
            price_per_share: 100,
            max_shares: 1000,
            shares_sold: 0,
            bump: 254,
        })
    );
    assert_eq!(ledger.mint(7), Some(ShareMint { property_id: 7, supply: 0 }));
    assert_eq!(ledger.config(8), None);
    assert_eq!(ledger.treasury_balance(), 0);
}

#[test]
fn initialize_twice_is_a_duplicate() {
    let mut ledger = Ledger::new(0);
    assert_eq!(initialize_property(&mut ledger, &init_ctx(who(1)), 7, 100, 1000), Ok(()));
    assert_eq!(
        initialize_property(&mut ledger, &init_ctx(who(2)), 7, 5, 50),
        Err(Errors::DuplicateAsset)
    );
    let config = ledger.config(7).unwrap();
    assert_eq!(config.admin, who(1));
    assert_eq!(config.price_per_share, 100);
    assert_eq!(config.max_shares, 1000);
}

#[test]
fn initialize_with_zero_capacity_is_not_special() {
    let mut ledger = Ledger::new(0);
    assert_eq!(initialize_property(&mut ledger, &init_ctx(who(1)), 3, 100, 0), Ok(()));
    assert_eq!(approve_user(&mut ledger, &approve_ctx(who(5))), Ok(()));
    assert_eq!(buy(&mut ledger, who(5), 3, 0), Ok(()));
    assert_eq!(buy(&mut ledger, who(5), 3, 1), Err(Errors::SupplyLimitReached));
    assert_eq!(ledger.config(3).unwrap().shares_sold, 0);
}

#[test]
fn supply_never_passes_the_cap() {
    let mut ledger = Ledger::new(0);
    assert_eq!(initialize_property(&mut ledger, &init_ctx(who(1)), 1, 100, 10), Ok(()));
    assert_eq!(approve_user(&mut ledger, &approve_ctx(who(5))), Ok(()));
    assert_eq!(approve_user(&mut ledger, &approve_ctx(who(6))), Ok(()));
    let asks: [(u8, u64); 8] = [(5, 3), (6, 4), (5, 4), (6, 3), (5, 1), (6, 0), (5, 2), (6, 1)];
    let outcomes = [
        Ok(()),
        Ok(()),
        Err(Errors::SupplyLimitReached),
        Ok(()),
        Err(Errors::SupplyLimitReached),
        Ok(()),
        Err(Errors::SupplyLimitReached),
        Err(Errors::SupplyLimitReached),
    ];
    for (ask, outcome) in asks.iter().zip(outcomes.iter()) {
        assert_eq!(buy(&mut ledger, who(ask.0), 1, ask.1), *outcome);
        let config = ledger.config(1).unwrap();
        assert!(config.shares_sold <= config.max_shares);
        assert_eq!(config.max_shares, 10);
        assert_eq!(ledger.mint(1).unwrap().supply, config.shares_sold);
    }
    assert_eq!(ledger.config(1).unwrap().shares_sold, 10);
    assert_eq!(ledger.shares_held(1, &who(5)), 3);
    assert_eq!(ledger.shares_held(1, &who(6)), 7);
}

#[test]
fn purchase_needs_a_verified_receiver() {
    let mut ledger = Ledger::new(0);
    assert_eq!(initialize_property(&mut ledger, &init_ctx(who(1)), 1, 100, 1000), Ok(()));
    assert_eq!(buy(&mut ledger, who(5), 1, 10), Err(Errors::UserNotKycVerified));
    assert_eq!(ledger.config(1).unwrap().shares_sold, 0);
    assert_eq!(approve_user(&mut ledger, &approve_ctx(who(5))), Ok(()));
    assert_eq!(buy(&mut ledger, who(5), 1, 10), Ok(()));
    assert_eq!(ledger.config(1).unwrap().shares_sold, 10);
    assert_eq!(revoke_user(&mut ledger, &revoke_ctx(who(5))), Ok(()));
    assert_eq!(
        ledger.kyc_entry(&who(5)),
        Some(KycEntry { user: who(5), is_verified: false })
    );
    assert_eq!(buy(&mut ledger, who(5), 1, 10), Err(Errors::UserNotKycVerified));
    assert_eq!(ledger.config(1).unwrap().shares_sold, 10);
    assert_eq!(ledger.shares_held(1, &who(5)), 10);
}

#[test]
fn verification_is_checked_before_the_numbers() {
    let mut ledger = Ledger::new(0);
    assert_eq!(initialize_property(&mut ledger, &init_ctx(who(1)), 1, 100, 5), Ok(()));
    assert_eq!(buy(&mut ledger, who(5), 1, 6), Err(Errors::UserNotKycVerified));
    assert_eq!(buy(&mut ledger, who(5), 1, u64::MAX), Err(Errors::UserNotKycVerified));
}

#[test]
fn buyer_and_receiver_may_differ() {
    let mut ledger = Ledger::new(0);
    assert_eq!(initialize_property(&mut ledger, &init_ctx(who(1)), 1, 100, 50), Ok(()));
    assert_eq!(approve_user(&mut ledger, &approve_ctx(who(5))), Ok(()));
    assert_eq!(buy(&mut ledger, who(5), 1, 20), Ok(()));
    assert_eq!(ledger.shares_held(1, &who(5)), 20);
    assert_eq!(ledger.shares_held(1, &who(9)), 0);
}

#[test]
fn purchase_returns_the_issuance() {
    let mut ledger = Ledger::new(0);
    assert_eq!(initialize_property(&mut ledger, &init_ctx(who(1)), 258, 100, 50), Ok(()));
    assert_eq!(approve_user(&mut ledger, &approve_ctx(who(5))), Ok(()));
    assert!(ledger.config(258).is_some());
    assert_eq!(
        buy_shares(&mut ledger, &buy_ctx(who(5)), 258, 20),
        Ok(Issuance {
            mint: who(201),
            receiver: who(5),
            authority: who(201),
            amount: 20,
            signer_seeds: vec![
                b"property_mint".to_vec(),
                vec![2u8, 1, 0, 0, 0, 0, 0, 0],
                vec![253u8]
            ],
        })
    );
    assert_eq!(
        buy_shares(&mut ledger, &buy_ctx(who(5)), 258, 31),
        Err(Errors::SupplyLimitReached)
    );
}

#[test]
fn selling_out_then_one_more() {
    let mut ledger = Ledger::new(0);
    assert_eq!(initialize_property(&mut ledger, &init_ctx(who(1)), 1, 100, 1000), Ok(()));
    assert_eq!(approve_user(&mut ledger, &approve_ctx(who(5))), Ok(()));
    assert_eq!(buy(&mut ledger, who(5), 1, 1000), Ok(()));
    assert_eq!(ledger.config(1).unwrap().shares_sold, 1000);
    assert_eq!(buy(&mut ledger, who(5), 1, 1), Err(Errors::SupplyLimitReached));
    assert_eq!(ledger.config(1).unwrap().shares_sold, 1000);
    assert_eq!(ledger.mint(1).unwrap().supply, 1000);
    assert_eq!(ledger.shares_held(1, &who(5)), 1000);
}

#[test]
fn counter_overflow_is_reported_before_the_cap() {
    let mut ledger = Ledger::new(0);
    assert_eq!(initialize_property(&mut ledger, &init_ctx(who(1)), 1, 1, u64::MAX - 1), Ok(()));
    assert_eq!(approve_user(&mut ledger, &approve_ctx(who(5))), Ok(()));
    assert_eq!(buy(&mut ledger, who(5), 1, u64::MAX - 2), Ok(()));
    assert_eq!(buy(&mut ledger, who(5), 1, 3), Err(Errors::Overflow));
    assert_eq!(buy(&mut ledger, who(5), 1, 2), Err(Errors::SupplyLimitReached));
    assert_eq!(buy(&mut ledger, who(5), 1, 1), Ok(()));
    assert_eq!(ledger.config(1).unwrap().shares_sold, u64::MAX - 1);
}

#[test]
fn properties_count_apart() {
    let mut ledger = Ledger::new(0);
    assert_eq!(initialize_property(&mut ledger, &init_ctx(who(1)), 1, 100, 1000), Ok(()));
    assert_eq!(initialize_property(&mut ledger, &init_ctx(who(2)), 2, 50, 40), Ok(()));
    assert_eq!(approve_user(&mut ledger, &approve_ctx(who(5))), Ok(()));
    assert_eq!(buy(&mut ledger, who(5), 1, 1000), Ok(()));
    assert_eq!(buy(&mut ledger, who(5), 1, 1), Err(Errors::SupplyLimitReached));
    let second = ledger.config(2).unwrap();
    assert_eq!(second.shares_sold, 0);
    assert_eq!(second.max_shares, 40);
    assert_eq!(second.admin, who(2));
    assert_eq!(ledger.mint(2).unwrap().supply, 0);
    assert_eq!(ledger.shares_held(2, &who(5)), 0);
    assert_eq!(buy(&mut ledger, who(5), 2, 40), Ok(()));
    assert_eq!(ledger.config(2).unwrap().shares_sold, 40);
    assert_eq!(ledger.config(1).unwrap().shares_sold, 1000);
    assert_eq!(ledger.shares_held(1, &who(5)), 1000);
    assert_eq!(ledger.shares_held(2, &who(5)), 40);
}

#[test]
fn withdrawal_needs_the_administrator() {
    let mut ledger = Ledger::new(0);
    assert_eq!(initialize_property(&mut ledger, &init_ctx(who(1)), 1, 100, 1000), Ok(()));
    assert_eq!(withdraw(&mut ledger, who(2), 1, 0), Err(Errors::Unauthorized));
    assert!(ledger.deposit(700));
    assert_eq!(withdraw(&mut ledger, who(2), 1, 10), Err(Errors::Unauthorized));
    assert_eq!(withdraw(&mut ledger, who(2), 1, 701), Err(Errors::Unauthorized));
    assert_eq!(ledger.treasury_balance(), 700);
}

#[test]
fn withdrawal_takes_exactly_the_amount() {
    let mut ledger = Ledger::new(700);
    assert_eq!(initialize_property(&mut ledger, &init_ctx(who(1)), 1, 100, 1000), Ok(()));
    assert_eq!(approve_user(&mut ledger, &approve_ctx(who(5))), Ok(()));
    assert_eq!(buy(&mut ledger, who(5), 1, 30), Ok(()));
    let config = ledger.config(1);
    assert_eq!(withdraw(&mut ledger, who(1), 1, 701), Err(Errors::InsufficientFunds));
    assert_eq!(ledger.treasury_balance(), 700);
    assert_eq!(
        withdraw(&mut ledger, who(1), 1, 250),
        paid(who(1), 250)
    );
    assert_eq!(ledger.treasury_balance(), 450);
    assert_eq!(
        withdraw(&mut ledger, who(1), 1, 450),
        paid(who(1), 450)
    );
    assert_eq!(ledger.treasury_balance(), 0);
    assert_eq!(withdraw(&mut ledger, who(1), 1, 1), Err(Errors::InsufficientFunds));
    assert_eq!(withdraw(&mut ledger, who(1), 1, 0), paid(who(1), 0));
    assert_eq!(ledger.config(1), config);
    assert_eq!(ledger.mint(1), Some(ShareMint { property_id: 1, supply: 30 }));
    assert_eq!(ledger.shares_held(1, &who(5)), 30);
    assert_eq!(ledger.kyc_entry(&who(5)), Some(KycEntry { user: who(5), is_verified: true }));
}

#[test]
fn one_pool_serves_every_property() {
    let mut ledger = Ledger::new(100);
    assert_eq!(initialize_property(&mut ledger, &init_ctx(who(1)), 1, 100, 1000), Ok(()));
    assert_eq!(initialize_property(&mut ledger, &init_ctx(who(2)), 2, 100, 1000), Ok(()));
    assert_eq!(withdraw(&mut ledger, who(1), 2, 10), Err(Errors::Unauthorized));
    assert_eq!(withdraw(&mut ledger, who(2), 2, 60), paid(who(2), 60));
    assert_eq!(withdraw(&mut ledger, who(1), 1, 60), Err(Errors::InsufficientFunds));
    assert_eq!(withdraw(&mut ledger, who(1), 1, 40), paid(who(1), 40));
    assert_eq!(ledger.treasury_balance(), 0);
}

#[test]
fn revoking_a_stranger_fails() {
    let mut ledger = Ledger::new(0);
    assert_eq!(revoke_user(&mut ledger, &revoke_ctx(who(5))), Err(Errors::UnknownIdentity));
    assert_eq!(ledger.kyc_entry(&who(5)), None);
    assert_eq!(approve_user(&mut ledger, &approve_ctx(who(6))), Ok(()));
    assert_eq!(revoke_user(&mut ledger, &revoke_ctx(who(5))), Err(Errors::UnknownIdentity));
    assert_eq!(ledger.kyc_entry(&who(6)), Some(KycEntry { user: who(6), is_verified: true }));
}

#[test]
fn approving_and_revoking_repeat_without_change() {
    let mut ledger = Ledger::new(0);
    assert_eq!(approve_user(&mut ledger, &approve_ctx(who(5))), Ok(()));
    assert_eq!(approve_user(&mut ledger, &approve_ctx(who(5))), Ok(()));
    assert_eq!(ledger.kyc_entry(&who(5)), Some(KycEntry { user: who(5), is_verified: true }));
    assert_eq!(revoke_user(&mut ledger, &revoke_ctx(who(5))), Ok(()));
    assert_eq!(revoke_user(&mut ledger, &revoke_ctx(who(5))), Ok(()));
    assert_eq!(ledger.kyc_entry(&who(5)), Some(KycEntry { user: who(5), is_verified: false }));
    assert_eq!(approve_user(&mut ledger, &approve_ctx(who(5))), Ok(()));
    assert_eq!(ledger.kyc_entry(&who(5)), Some(KycEntry { user: who(5), is_verified: true }));
}

#[test]
fn identities_differing_in_one_byte_are_apart() {
    let mut bytes = [5u8; 32];
    bytes[31] = 6;
    let near = Identity::new(bytes);
    assert!(near != who(5));
    assert!(near == Identity::new(bytes));
    assert_eq!(near.to_bytes(), bytes);
    let mut ledger = Ledger::new(0);
    assert_eq!(initialize_property(&mut ledger, &init_ctx(who(1)), 1, 100, 1000), Ok(()));
    assert_eq!(approve_user(&mut ledger, &approve_ctx(who(5))), Ok(()));
    assert_eq!(buy(&mut ledger, near, 1, 1), Err(Errors::UserNotKycVerified));
    assert_eq!(ledger.kyc_entry(&near), None);
}

#[test]
fn deposit_stops_at_the_numeric_range() {
    let mut ledger = Ledger::new(u64::MAX - 5);
    assert!(ledger.deposit(5));
    assert_eq!(ledger.treasury_balance(), u64::MAX);
    assert!(!ledger.deposit(1));
    assert_eq!(ledger.treasury_balance(), u64::MAX);
    assert!(ledger.deposit(0));
}

#[test]
fn check_issue_in_order() {
    assert_eq!(check_issue(false, 0, 1, 10), Err(Errors::UserNotKycVerified));
    assert_eq!(check_issue(false, u64::MAX, 1, 10), Err(Errors::UserNotKycVerified));
    assert_eq!(check_issue(true, u64::MAX, 1, u64::MAX), Err(Errors::Overflow));
    assert_eq!(check_issue(true, 10, 1, 10), Err(Errors::SupplyLimitReached));
    assert_eq!(check_issue(true, 4, 6, 10), Ok(10));
    assert_eq!(check_issue(true, 4, 5, 10), Ok(9));
    assert_eq!(check_issue(true, 0, 0, 0), Ok(0));
}

#[test]
fn check_withdrawal_in_order() {
    assert_eq!(check_withdrawal(&who(1), &who(2), 0, 5), Err(Errors::Unauthorized));
    assert_eq!(check_withdrawal(&who(1), &who(2), 100, 5), Err(Errors::Unauthorized));
    assert_eq!(check_withdrawal(&who(1), &who(1), 4, 5), Err(Errors::InsufficientFunds));
    assert_eq!(check_withdrawal(&who(1), &who(1), 100, 5), Ok(95));
    assert_eq!(check_withdrawal(&who(1), &who(1), 5, 5), Ok(0));
}

#[test]
fn error_messages() {
    assert_eq!(Errors::Unauthorized.message(), "Unauthorized access");
    assert_eq!(Errors::SupplyLimitReached.message(), "Supply limit reached for this property");
    assert_eq!(Errors::Overflow.message(), "Math overflow");
    assert_eq!(Errors::UserNotKycVerified.message(), "Receiver is not KYC verified/Whitelisted");
    assert_eq!(Errors::InsufficientFunds.message(), "Insufficient funds in treasury");
    assert_eq!(Errors::DuplicateAsset.message(), "Property is already initialized");
    assert_eq!(Errors::UnknownIdentity.message(), "Identity has no KYC entry");
}
