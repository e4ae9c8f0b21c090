//! The decisions of the issuance engine and of the custody module, on the
//! plain values of the cells they read.

use crate::errors::Errors;
use crate::identity::Identity;
use vstd::prelude::*;

verus! {

/// The shares issued after a purchase of `amount`, or why the purchase is
/// refused. The checks come in this order: the receiver is verified, the
/// sum stays in the counter's numeric range, the sum does not pass
/// `max_shares`.
pub open spec fn issued_after(verified: bool, issued: u64, amount: u64, max_shares: u64) -> Result<
    u64,
    Errors,
> {
    if !verified {
        Err(Errors::UserNotKycVerified)
    } else if issued + amount > u64::MAX {
        Err(Errors::Overflow)
    } else if issued + amount > max_shares {
        Err(Errors::SupplyLimitReached)
    } else {
        Ok((issued + amount) as u64)
    }
}

/// The pool's balance after a withdrawal of `amount`, or why the withdrawal
/// is refused: first where the signer is not the administrator, then where
/// the pool holds less than `amount`.
pub open spec fn balance_after(admin: Identity, signer: Identity, balance: u64, amount: u64) -> Result<
    u64,
    Errors,
> {
    if admin != signer {
        Err(Errors::Unauthorized)
    } else if balance < amount {
        Err(Errors::InsufficientFunds)
    } else {
        Ok((balance - amount) as u64)
    }
}

/// Decides a purchase of `amount` shares: returns the shares issued after
/// it, or the first check that fails.
pub fn check_issue(verified: bool, issued: u64, amount: u64, max_shares: u64) -> (total: Result<
    u64,
    Errors,
>)
    ensures
        total == issued_after(verified, issued, amount, max_shares),
{
    if !verified {
        return Err(Errors::UserNotKycVerified);
    }
    match issued.checked_add(amount) {
        None => Err(Errors::Overflow),
        Some(sum) => {
            if sum <= max_shares {
                Ok(sum)
            } else {
                Err(Errors::SupplyLimitReached)
            }
        },
    }
}

/// Decides a withdrawal of `amount` from a pool that holds `balance`:
/// returns what the pool holds after it, or the first check that fails.
pub fn check_withdrawal(admin: &Identity, signer: &Identity, balance: u64, amount: u64) -> (left: Result<
    u64,
    Errors,
>)
    ensures
        left == balance_after(*admin, *signer, balance, amount),
{
    if *admin != *signer {
        Err(Errors::Unauthorized)
    } else if balance < amount {
        Err(Errors::InsufficientFunds)
    } else {
        Ok(balance - amount)
    }
}

} // verus!
