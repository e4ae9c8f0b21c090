//! What holds of the ledger over whole histories of operations, and of the
//! seeds from which the cells' addresses are derived.

use crate::address::{
    config_seeds, config_tag, kyc_seeds, kyc_tag, le_bytes, lemma_le_bytes_injective, mint_seeds,
    mint_signer_seeds, mint_tag, program_address, treasury_seeds, treasury_signer_seeds,
    treasury_tag,
};
use crate::errors::Errors;
use crate::identity::Identity;
use crate::model::LedgerView;
use vstd::prelude::*;

verus! {

/// One operation, as it is asked of the ledger.
pub enum Step {
    /// `admin` initializes a property.
    Initialize { admin: Identity, bump: u8, property_id: u64, price_per_share: u64, max_shares: u64 },
    /// A participant is approved.
    Approve { user: Identity },
    /// A participant is revoked.
    Revoke { user: Identity },
    /// Shares of a property are bought for `receiver`.
    Buy { receiver: Identity, property_id: u64, amount: u64 },
    /// `signer` withdraws from the pool against a property.
    Withdraw { signer: Identity, property_id: u64, amount: u64 },
}

/// The ledger after one operation. A refused operation leaves the ledger as
/// it was, and so does a purchase or a withdrawal that names a property
/// which was never initialized.
pub open spec fn after_step(ledger: LedgerView, step: Step) -> LedgerView {
    match step {
        Step::Initialize { admin, bump, property_id, price_per_share, max_shares } => {
            match ledger.initialize_property(admin, bump, property_id, price_per_share, max_shares) {
                Ok(next) => next,
                Err(_) => ledger,
            }
        },
        Step::Approve { user } => ledger.approve_user(user),
        Step::Revoke { user } => match ledger.revoke_user(user) {
            Ok(next) => next,
            Err(_) => ledger,
        },
        Step::Buy { receiver, property_id, amount } => {
            if !ledger.configs.contains_key(property_id) {
                ledger
            } else {
                match ledger.buy_shares(receiver, property_id, amount) {
                    Ok(next) => next,
                    Err(_) => ledger,
                }
            }
        },
        Step::Withdraw { signer, property_id, amount } => {
            if !ledger.configs.contains_key(property_id) {
                ledger
            } else {
                match ledger.withdraw_capital(signer, property_id, amount) {
                    Ok(next) => next,
                    Err(_) => ledger,
                }
            }
        },
    }
}

/// The ledger after a history of operations, carried out in order.
pub open spec fn after_steps(ledger: LedgerView, steps: Seq<Step>) -> LedgerView
    decreases steps.len(),
{
    if steps.len() == 0 {
        ledger
    } else {
        after_step(after_steps(ledger, steps.drop_last()), steps.last())
    }
}

/// Whatever operations are carried out, in whatever order and for whichever
/// properties and participants, the ledger stays in order; a property that
/// was initialized stays so and keeps its administrator and its capacity,
/// and its shares sold never sink and never pass that capacity.
pub proof fn lemma_supply_cap_holds(ledger: LedgerView, steps: Seq<Step>, property_id: u64)
    requires
        ledger.wf(),
        ledger.configs.contains_key(property_id),
    ensures
        after_steps(ledger, steps).wf(),
        after_steps(ledger, steps).configs.contains_key(property_id),
        after_steps(ledger, steps).configs[property_id].admin == ledger.configs[property_id].admin,
        after_steps(ledger, steps).configs[property_id].max_shares
            == ledger.configs[property_id].max_shares,
        ledger.configs[property_id].shares_sold <= after_steps(
            ledger,
            steps,
        ).configs[property_id].shares_sold <= ledger.configs[property_id].max_shares,
    decreases steps.len(),
{
    if steps.len() > 0 {
        let before = after_steps(ledger, steps.drop_last());
        lemma_supply_cap_holds(ledger, steps.drop_last(), property_id);
        lemma_step_keeps_wf(before, steps.last());
    }
}

/// One operation keeps a ledger that is in order so.
pub proof fn lemma_step_keeps_wf(ledger: LedgerView, step: Step)
    requires
        ledger.wf(),
    ensures
        after_step(ledger, step).wf(),
{
    match step {
        Step::Initialize { admin, bump, property_id, price_per_share, max_shares } => {
            ledger.lemma_operations_keep_wf(admin, bump, property_id, price_per_share, max_shares);
        },
        Step::Approve { user } => {
            ledger.lemma_operations_keep_wf(user, 0, 0, 0, 0);
        },
        Step::Revoke { user } => {
            ledger.lemma_operations_keep_wf(user, 0, 0, 0, 0);
        },
        Step::Buy { receiver, property_id, amount } => {
            ledger.lemma_operations_keep_wf(receiver, 0, property_id, 0, amount);
        },
        Step::Withdraw { signer, property_id, amount } => {
            ledger.lemma_operations_keep_wf(signer, 0, property_id, 0, amount);
        },
    }
}

/// Starting from a ledger on which nothing happened yet, the shares sold of
/// every property stay within its capacity through every history.
pub proof fn lemma_supply_cap_from_empty(steps: Seq<Step>, property_id: u64)
    ensures
        after_steps(LedgerView::empty(), steps).wf(),
        after_steps(LedgerView::empty(), steps).configs.contains_key(property_id) ==> after_steps(
            LedgerView::empty(),
            steps,
        ).configs[property_id].shares_sold <= after_steps(
            LedgerView::empty(),
            steps,
        ).configs[property_id].max_shares,
    decreases steps.len(),
{
    if steps.len() > 0 {
        lemma_supply_cap_from_empty(steps.drop_last(), property_id);
        lemma_step_keeps_wf(after_steps(LedgerView::empty(), steps.drop_last()), steps.last());
    }
}

/// A purchase for a receiver who has no verification record, or whose
/// record says not verified, is refused with `UserNotKycVerified`, whatever
/// the property and the amount.
pub proof fn lemma_unverified_receiver_is_refused(
    ledger: LedgerView,
    receiver: Identity,
    property_id: u64,
    amount: u64,
)
    requires
        !ledger.kyc.contains_key(receiver) || !ledger.kyc[receiver].is_verified,
    ensures
        ledger.buy_shares(receiver, property_id, amount) == Err::<LedgerView, Errors>(
            Errors::UserNotKycVerified,
        ),
{
}

/// Right after an approval, a purchase for the approved participant is
/// never refused for want of verification: it succeeds exactly where the
/// shares issued plus the amount stay within the property's capacity.
pub proof fn lemma_approved_receiver_can_buy(
    ledger: LedgerView,
    receiver: Identity,
    property_id: u64,
    amount: u64,
)
    requires
        ledger.wf(),
        ledger.configs.contains_key(property_id),
    ensures
        ledger.approve_user(receiver).buy_shares(receiver, property_id, amount).is_ok() <==> (
        ledger.configs[property_id].shares_sold + amount
            <= ledger.configs[property_id].max_shares),
        ledger.approve_user(receiver).buy_shares(receiver, property_id, amount)
            != Err::<LedgerView, Errors>(Errors::UserNotKycVerified),
{
}

/// Right after a revocation, a purchase for the revoked participant is
/// refused with `UserNotKycVerified`.
pub proof fn lemma_revoked_receiver_is_refused(
    ledger: LedgerView,
    receiver: Identity,
    property_id: u64,
    amount: u64,
)
    requires
        ledger.revoke_user(receiver).is_ok(),
    ensures
        ledger.revoke_user(receiver).unwrap().buy_shares(receiver, property_id, amount) == Err::<
            LedgerView,
            Errors,
        >(Errors::UserNotKycVerified),
{
}

/// A purchase of shares of one property leaves every other property as it
/// was: its configuration, its counter, and so what is left of its
/// capacity.
pub proof fn lemma_properties_are_independent(
    ledger: LedgerView,
    receiver: Identity,
    property_id: u64,
    amount: u64,
    other: u64,
)
    requires
        ledger.configs.contains_key(property_id),
        other != property_id,
        ledger.buy_shares(receiver, property_id, amount).is_ok(),
    ensures
        ({
            let next = ledger.buy_shares(receiver, property_id, amount).unwrap();
            &&& next.configs.contains_key(other) == ledger.configs.contains_key(other)
            &&& next.mints.contains_key(other) == ledger.mints.contains_key(other)
            &&& next.configs[other] == ledger.configs[other]
            &&& next.mints[other] == ledger.mints[other]
            &&& forall|holder: Identity|
                next.shares_held(other, holder) == ledger.shares_held(other, holder)
        }),
{
}

/// Whether the operation buys shares of `property_id`.
pub open spec fn buys(step: Step, property_id: u64) -> bool {
    match step {
        Step::Buy { property_id: bought, .. } => bought == property_id,
        _ => false,
    }
}

/// Whether no operation of the history buys shares of `property_id`.
pub open spec fn never_buys(steps: Seq<Step>, property_id: u64) -> bool {
    forall|i: int| 0 <= i < steps.len() ==> !buys(#[trigger] steps[i], property_id)
}

/// Whatever is issued of other properties, up to their capacity or not, and
/// whatever else happens, a property of which nothing is bought keeps its
/// configuration and its counter, and so all that is left of its capacity.
pub proof fn lemma_other_purchases_leave_capacity(
    ledger: LedgerView,
    steps: Seq<Step>,
    property_id: u64,
)
    requires
        ledger.configs.contains_key(property_id),
        ledger.mints.contains_key(property_id),
        never_buys(steps, property_id),
    ensures
        after_steps(ledger, steps).configs.contains_key(property_id),
        after_steps(ledger, steps).mints.contains_key(property_id),
        after_steps(ledger, steps).configs[property_id] == ledger.configs[property_id],
        after_steps(ledger, steps).mints[property_id] == ledger.mints[property_id],
    decreases steps.len(),
{
    if steps.len() > 0 {
        let front = steps.drop_last();
        assert forall|i: int| 0 <= i < front.len() implies !buys(
            #[trigger] front[i],
            property_id,
        ) by {
            assert(front[i] == steps[i]);
        }
        lemma_other_purchases_leave_capacity(ledger, front, property_id);
        assert(steps.last() == steps[steps.len() - 1]);
    }
}

/// A withdrawal by anyone but the property's administrator is refused with
/// `Unauthorized`, whatever the pool holds. By the administrator it
/// succeeds exactly where the pool holds at least `amount`; the pool then
/// holds exactly `amount` less, and nothing else changes.
pub proof fn lemma_withdrawal(ledger: LedgerView, signer: Identity, property_id: u64, amount: u64)
    requires
        ledger.configs.contains_key(property_id),
    ensures
        signer != ledger.configs[property_id].admin ==> ledger.withdraw_capital(
            signer,
            property_id,
            amount,
        ) == Err::<LedgerView, Errors>(Errors::Unauthorized),
        signer == ledger.configs[property_id].admin ==> (ledger.withdraw_capital(
            signer,
            property_id,
            amount,
        ).is_ok() <==> amount <= ledger.treasury),
        signer == ledger.configs[property_id].admin && amount <= ledger.treasury
            ==> ledger.withdraw_capital(signer, property_id, amount) == Ok::<LedgerView, Errors>(
            LedgerView { treasury: (ledger.treasury - amount) as u64, ..ledger },
        ),
{
}

/// Whether no operation of the history approves `user`.
pub open spec fn never_approves(steps: Seq<Step>, user: Identity) -> bool {
    forall|i: int| 0 <= i < steps.len() ==> steps[i] != (Step::Approve { user })
}

/// After a history that never approves a participant, starting where the
/// participant has no record, a revocation of that participant is refused
/// with `UnknownIdentity`.
pub proof fn lemma_revoke_needs_approval(ledger: LedgerView, steps: Seq<Step>, user: Identity)
    requires
        !ledger.kyc.contains_key(user),
        never_approves(steps, user),
    ensures
        !after_steps(ledger, steps).kyc.contains_key(user),
        after_steps(ledger, steps).revoke_user(user) == Err::<LedgerView, Errors>(
            Errors::UnknownIdentity,
        ),
    decreases steps.len(),
{
    if steps.len() > 0 {
        let front = steps.drop_last();
        assert forall|i: int| 0 <= i < front.len() implies front[i] != (Step::Approve { user }) by {
            assert(front[i] == steps[i]);
        }
        lemma_revoke_needs_approval(ledger, front, user);
        assert(steps.last() == steps[steps.len() - 1]);
    }
}

/// Approving twice is approving once: the second approval changes nothing,
/// and the participant is verified after either.
pub proof fn lemma_approve_is_idempotent(ledger: LedgerView, user: Identity)
    ensures
        ledger.approve_user(user).approve_user(user) == ledger.approve_user(user),
        ledger.approve_user(user).is_verified(user),
{
    assert(ledger.approve_user(user).approve_user(user).kyc =~= ledger.approve_user(user).kyc);
}

/// Revoking twice is revoking once.
pub proof fn lemma_revoke_is_idempotent(ledger: LedgerView, user: Identity)
    requires
        ledger.kyc.contains_key(user),
    ensures
        ledger.revoke_user(user).unwrap().revoke_user(user) == ledger.revoke_user(user),
        !ledger.revoke_user(user).unwrap().is_verified(user),
{
    let once = ledger.revoke_user(user).unwrap();
    assert(once.revoke_user(user).unwrap().kyc =~= once.kyc);
}

/// The address of a cell depends on nothing but its seeds and the program:
/// the same property identifier gives the same seeds, and so the same
/// address of its configuration and of its counter. Different identifiers
/// give different seeds.
pub proof fn lemma_property_seeds(a: u64, b: u64, program: Identity)
    ensures
        a == b ==> program_address(config_seeds(a), program@) == program_address(
            config_seeds(b),
            program@,
        ),
        a == b ==> program_address(mint_seeds(a), program@) == program_address(
            mint_seeds(b),
            program@,
        ),
        a != b ==> config_seeds(a) != config_seeds(b) && mint_seeds(a) != mint_seeds(b),
        a != b ==> config_seeds(a).flatten() != config_seeds(b).flatten(),
        a != b ==> mint_seeds(a).flatten() != mint_seeds(b).flatten(),
{
    lemma_le_bytes_injective(a, b);
    if a != b {
        assert(config_seeds(a)[1] == le_bytes(a));
        assert(config_seeds(b)[1] == le_bytes(b));
        assert(mint_seeds(a)[1] == le_bytes(a));
        assert(mint_seeds(b)[1] == le_bytes(b));
        lemma_flatten_pair(config_tag(), le_bytes(a));
        lemma_flatten_pair(config_tag(), le_bytes(b));
        lemma_flatten_pair(mint_tag(), le_bytes(a));
        lemma_flatten_pair(mint_tag(), le_bytes(b));
        lemma_same_front(config_tag(), le_bytes(a), le_bytes(b));
        lemma_same_front(mint_tag(), le_bytes(a), le_bytes(b));
    }
}

/// Different participants have different seeds for their verification
/// records.
pub proof fn lemma_kyc_seeds(a: Identity, b: Identity)
    ensures
        a != b ==> kyc_seeds(a) != kyc_seeds(b),
        a != b ==> kyc_seeds(a).flatten() != kyc_seeds(b).flatten(),
{
    if a != b {
        Identity::lemma_equal_by_view(a, b);
        assert(kyc_seeds(a)[1] == a@);
        assert(kyc_seeds(b)[1] == b@);
        lemma_flatten_pair(kyc_tag(), a@);
        lemma_flatten_pair(kyc_tag(), b@);
        lemma_same_front(kyc_tag(), a@, b@);
    }
}

/// The seeds of cells of different kinds never run together: read as one
/// string of bytes, the seeds of a configuration, of a counter, of a
/// verification record and of the pool all differ.
pub proof fn lemma_kinds_of_seeds_differ(property_id: u64, other_id: u64, user: Identity)
    ensures
        config_seeds(property_id).flatten() != mint_seeds(other_id).flatten(),
        config_seeds(property_id).flatten() != kyc_seeds(user).flatten(),
        config_seeds(property_id).flatten() != treasury_seeds().flatten(),
        mint_seeds(property_id).flatten() != kyc_seeds(user).flatten(),
        mint_seeds(property_id).flatten() != treasury_seeds().flatten(),
        kyc_seeds(user).flatten() != treasury_seeds().flatten(),
{
    lemma_flatten_pair(config_tag(), le_bytes(property_id));
    lemma_flatten_pair(mint_tag(), le_bytes(property_id));
    lemma_flatten_pair(mint_tag(), le_bytes(other_id));
    lemma_flatten_pair(kyc_tag(), user@);
    treasury_seeds().lemma_flatten_one_element();
    assert(treasury_seeds().first() == treasury_tag());
    assert(config_seeds(property_id).flatten().len() == 14);
    assert(mint_seeds(property_id).flatten().len() == 21);
    assert(mint_seeds(other_id).flatten().len() == 21);
    assert(kyc_seeds(user).flatten().len() == 35);
    assert(treasury_seeds().flatten().len() == 8);
}

/// A cell signs with its own seeds followed by its bump. So the seeds with
/// which the counter of one property signs are never those of another
/// property's counter, whatever the bumps, while the pool signs alike for
/// every property.
pub proof fn lemma_signer_seeds(a: u64, b: u64, bump_a: u8, bump_b: u8)
    ensures
        mint_signer_seeds(a, bump_a) == mint_seeds(a).push(seq![bump_a]),
        treasury_signer_seeds(bump_a) == treasury_seeds().push(seq![bump_a]),
        a != b ==> mint_signer_seeds(a, bump_a) != mint_signer_seeds(b, bump_b),
{
    assert(mint_signer_seeds(a, bump_a) =~= mint_seeds(a).push(seq![bump_a]));
    assert(treasury_signer_seeds(bump_a) =~= treasury_seeds().push(seq![bump_a]));
    lemma_le_bytes_injective(a, b);
    if a != b {
        assert(mint_signer_seeds(a, bump_a)[1] == le_bytes(a));
        assert(mint_signer_seeds(b, bump_b)[1] == le_bytes(b));
    }
}

/// Two seeds read as one string of bytes are the first followed by the
/// second.
proof fn lemma_flatten_pair(tag: Seq<u8>, component: Seq<u8>)
    ensures
        seq![tag, component].flatten() == tag + component,
{
    let seeds = seq![tag, component];
    let rest = seeds.drop_first();
    assert(rest =~= seq![component]);
    rest.lemma_flatten_one_element();
    assert(rest.first() == component);
    assert(seeds.first() == tag);
    assert(seeds.flatten() =~= tag + component);
}

/// Strings of bytes that begin alike and go on differently differ.
proof fn lemma_same_front(tag: Seq<u8>, a: Seq<u8>, b: Seq<u8>)
    requires
        a != b,
    ensures
        tag + a != tag + b,
{
    if tag + a == tag + b {
        assert((tag + a).subrange(tag.len() as int, (tag + a).len() as int) =~= a);
        assert((tag + b).subrange(tag.len() as int, (tag + b).len() as int) =~= b);
    }
}

} // verus!
