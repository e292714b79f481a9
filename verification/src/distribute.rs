//! The distributor: partitions one payment amount into a platform fee, the
//! declared collaborator shares, and the creator's remainder — exactly, in
//! integers, with every rounding remainder accruing to the creator — and
//! moves the partitioned funds out of the split vault in one atomic step.

use vstd::prelude::*;
use vstd::arithmetic::div_mod::{
    lemma_div_pos_is_pos, lemma_fundamental_div_mod, lemma_hoist_over_denominator,
    lemma_mod_division_less_than_divisor, lemma_multiply_divide_le,
};
use vstd::arithmetic::mul::{
    lemma_mul_inequality, lemma_mul_is_commutative, lemma_mul_is_distributive_add,
    lemma_mul_nonnegative,
};
use crate::errors::ProtocolError;
use crate::split::{
    Collaborator, SplitConfig, lemma_sum_share_bps_prefix, lemma_sum_share_bps_take_step,
    sum_share_bps,
};
use crate::types::{Id32, PaymentMedium, RecipientAccount, Vault};

verus! {

/// The amount a share of `bps` basis points takes out of `amount`:
/// `floor(amount * bps / 10000)`.
pub open spec fn bps_share(amount: int, bps: int) -> int {
    amount * bps / 10000
}

/// What all collaborators together take out of `amount`: the sum of each
/// one's rounded-down share.
pub open spec fn collab_total(amount: int, collaborators: Seq<Collaborator>) -> int
    decreases collaborators.len(),
{
    if collaborators.len() == 0 {
        0
    } else {
        collab_total(amount, collaborators.drop_last())
            + bps_share(amount, collaborators.last().share_bps as int)
    }
}

/// What the creator retains of `amount`: the remainder once the platform fee
/// and every collaborator share are taken out. All rounding loss lands here.
pub open spec fn creator_share(
    amount: int,
    platform_fee_bps: int,
    collaborators: Seq<Collaborator>,
) -> int {
    amount - bps_share(amount, platform_fee_bps) - collab_total(amount, collaborators)
}

/// The supplied recipient accounts align with the configured collaborator
/// list: same length, and position for position the same identity.
pub open spec fn accounts_match(
    configured: Seq<Collaborator>,
    supplied: Seq<RecipientAccount>,
) -> bool {
    &&& supplied.len() == configured.len()
    &&& forall|i: int|
        0 <= i < configured.len()
            ==> (#[trigger] supplied[i].identity) == configured[i].identity
}

/// The first precondition of a distribution that fails, if any: a zero
/// amount, then the token accounts, then the collaborator account matching.
pub open spec fn distribute_reject(
    amount: u64,
    medium: PaymentMedium,
    supplied_mint: Option<Id32>,
    configured: Seq<Collaborator>,
    supplied: Seq<RecipientAccount>,
) -> Option<ProtocolError> {
    if amount == 0 {
        Some(ProtocolError::InsufficientFunds)
    } else if !medium.accounts_ok_spec(supplied_mint) {
        Some(ProtocolError::InvalidVault)
    } else if !accounts_match(configured, supplied) {
        Some(ProtocolError::InvalidCollaborator)
    } else {
        None
    }
}

/// A basis-point share never goes below zero nor above the amount it is
/// taken from, as long as the share is at most 10000 basis points.
pub proof fn lemma_bps_share_bounds(amount: int, bps: int)
    requires
        0 <= amount,
        0 <= bps <= 10000,
    ensures
        0 <= bps_share(amount, bps) <= amount,
{
    lemma_mul_nonnegative(amount, bps);
    lemma_div_pos_is_pos(amount * bps, 10000);
    lemma_mul_inequality(bps, 10000, amount);
    lemma_mul_is_commutative(bps, amount);
    lemma_mul_is_commutative(10000, amount);
    lemma_multiply_divide_le(amount * bps, 10000, amount);
}

/// Rounding down each part loses against rounding down the whole: the sum of
/// two floored quotients is at most the floored quotient of the sum.
pub proof fn lemma_floor_sum(x: int, y: int, d: int)
    requires
        0 <= x,
        0 <= y,
        0 < d,
    ensures
        x / d + y / d <= (x + y) / d,
{
    let qx = x / d;
    let qy = y / d;
    let rx = x % d;
    let ry = y % d;
    lemma_fundamental_div_mod(x, d);
    lemma_fundamental_div_mod(y, d);
    lemma_mod_division_less_than_divisor(x, d);
    lemma_mod_division_less_than_divisor(y, d);
    assert(d * (qx + qy) == d * qx + d * qy) by {
        lemma_mul_is_distributive_add(d, qx, qy);
    }
    assert((qx + qy) * d == d * (qx + qy)) by {
        lemma_mul_is_commutative(qx + qy, d);
    }
    assert((rx + ry) / d + (qx + qy) == ((rx + ry) + (qx + qy) * d) / d) by {
        lemma_hoist_over_denominator(rx + ry, qx + qy, d as nat);
    }
    assert((rx + ry) + (qx + qy) * d == x + y);
    lemma_div_pos_is_pos(rx + ry, d);
}

/// What all collaborators take is never negative, and never more than one
/// single share of their summed basis points would take. (The sum of the
/// basis points itself is never negative either.)
pub proof fn lemma_collab_total_bound(amount: int, collaborators: Seq<Collaborator>)
    requires
        0 <= amount,
    ensures
        0 <= sum_share_bps(collaborators),
        0 <= collab_total(amount, collaborators),
        collab_total(amount, collaborators) <= bps_share(amount, sum_share_bps(collaborators)),
    decreases collaborators.len(),
{
    if collaborators.len() == 0 {
    } else {
        let rest = collaborators.drop_last();
        let last_bps = collaborators.last().share_bps as int;
        lemma_collab_total_bound(amount, rest);
        lemma_mul_nonnegative(amount, last_bps);
        lemma_div_pos_is_pos(amount * last_bps, 10000);
        lemma_floor_sum(amount * sum_share_bps(rest), amount * last_bps, 10000);
        assert(amount * sum_share_bps(rest) + amount * last_bps
            == amount * (sum_share_bps(rest) + last_bps)) by {
            lemma_mul_is_distributive_add(amount, sum_share_bps(rest), last_bps);
        }
        lemma_mul_nonnegative(amount, sum_share_bps(rest));
    }
}

/// The platform fee and all collaborator shares together never exceed the
/// amount, as long as their basis points together stay within 10000.
pub proof fn lemma_fee_plus_collab_bound(
    amount: int,
    platform_fee_bps: int,
    collaborators: Seq<Collaborator>,
)
    requires
        0 <= amount,
        0 <= platform_fee_bps,
        sum_share_bps(collaborators) + platform_fee_bps <= 10000,
    ensures
        0 <= collab_total(amount, collaborators),
        0 <= bps_share(amount, platform_fee_bps),
        bps_share(amount, platform_fee_bps) + collab_total(amount, collaborators) <= amount,
{
    let shares = sum_share_bps(collaborators);
    lemma_collab_total_bound(amount, collaborators);
    lemma_bps_share_bounds(amount, platform_fee_bps);
    lemma_floor_sum(amount * platform_fee_bps, amount * shares, 10000);
    assert(amount * platform_fee_bps + amount * shares == amount * (platform_fee_bps + shares))
        by {
        lemma_mul_is_distributive_add(amount, platform_fee_bps, shares);
    }
    lemma_mul_nonnegative(amount, shares);
    lemma_bps_share_bounds(amount, platform_fee_bps + shares);
}

/// For every amount and every valid policy, the platform fee, the
/// collaborator shares, and the creator remainder are each within `[0,
/// amount]` and partition the amount exactly: no unit is created, lost,
/// double-paid, or stranded, whatever the rounding did to each share.
pub proof fn lemma_split_exact(
    amount: u64,
    platform_fee_bps: u16,
    collaborators: Seq<Collaborator>,
)
    requires
        crate::split::policy_ok(platform_fee_bps, collaborators),
    ensures
        0 <= bps_share(amount as int, platform_fee_bps as int) <= amount,
        0 <= collab_total(amount as int, collaborators),
        bps_share(amount as int, platform_fee_bps as int)
            + collab_total(amount as int, collaborators) <= amount,
        0 <= creator_share(amount as int, platform_fee_bps as int, collaborators) <= amount,
        bps_share(amount as int, platform_fee_bps as int)
            + collab_total(amount as int, collaborators)
            + creator_share(amount as int, platform_fee_bps as int, collaborators)
            == amount,
{
    lemma_fee_plus_collab_bound(amount as int, platform_fee_bps as int, collaborators);
    lemma_bps_share_bounds(amount as int, platform_fee_bps as int);
}

/// Taking one more collaborator adds exactly its share to the running total.
pub proof fn lemma_collab_total_take_step(
    amount: int,
    collaborators: Seq<Collaborator>,
    n: int,
)
    requires
        0 <= n < collaborators.len(),
    ensures
        collab_total(amount, collaborators.take(n + 1))
            == collab_total(amount, collaborators.take(n))
                + bps_share(amount, collaborators[n].share_bps as int),
{
    assert(collaborators.take(n + 1).drop_last() =~= collaborators.take(n));
    assert(collaborators.take(n + 1).last() == collaborators[n]);
}

/// Computes `floor(amount * bps / 10000)` without overflow, widening to
/// 128 bits for the product.
pub fn compute_bps_share(amount: u64, bps: u16) -> (r: u64)
    requires
        bps <= 10000,
    ensures
        r == bps_share(amount as int, bps as int),
{
    proof {
        lemma_bps_share_bounds(amount as int, bps as int);
    }
    (((amount as u128) * (bps as u128)) / 10000) as u64
}

/// What one distribution paid out: the platform fee, the creator remainder,
/// and each collaborator's share in configured order. The three categories
/// always sum to exactly the distributed amount.
#[derive(Debug, PartialEq, Eq)]
pub struct DistributionOutcome {
    pub platform_amount: u64,
    pub creator_amount: u64,
    pub collaborator_amounts: Vec<u64>,
}

/// One-shot disbursement of `amount` from the split vault: the platform
/// treasury receives `floor(amount * platform_fee_bps / 10000)`, each
/// collaborator `floor(amount * share_bps / 10000)`, and the creator the
/// exact remainder — or the call is rejected and nothing moves.
///
/// The supplied collaborator accounts must align with the configured list
/// position for position and identity for identity; any mismatch, missing or
/// extra entry aborts the whole call with `InvalidCollaborator`. A zero
/// `amount` is rejected with `InsufficientFunds`; missing or foreign token
/// accounts on the token path with `InvalidVault`. On success the vault
/// balance drops by exactly `amount`, every recipient balance rises by
/// exactly its share, and the last-distribution timestamp is set to
/// `now_ts`; transfers of zero are skipped but change no outcome. The
/// runtime commits all of it as one unit.
#[verifier::loop_isolation(false)]
pub fn distribute(
    config: &mut SplitConfig,
    amount: u64,
    medium: PaymentMedium,
    supplied_mint: Option<Id32>,
    platform_balance: &mut u64,
    creator_balance: &mut u64,
    collaborator_accounts: &mut Vec<RecipientAccount>,
    now_ts: i64,
) -> (r: Result<DistributionOutcome, ProtocolError>)
    requires
        old(config).wf(),
        amount <= old(config).vault.balance,
        *old(platform_balance) + amount <= u64::MAX,
        *old(creator_balance) + amount <= u64::MAX,
        forall|i: int|
            0 <= i < old(collaborator_accounts)@.len()
                ==> (#[trigger] old(collaborator_accounts)@[i]).balance + amount <= u64::MAX,
    ensures
        final(config).wf(),
        match distribute_reject(
            amount,
            medium,
            supplied_mint,
            old(config).collaborators@,
            old(collaborator_accounts)@,
        ) {
            Some(e) => {
                &&& r == Err::<DistributionOutcome, ProtocolError>(e)
                &&& *final(config) == *old(config)
                &&& *final(platform_balance) == *old(platform_balance)
                &&& *final(creator_balance) == *old(creator_balance)
                &&& final(collaborator_accounts)@ == old(collaborator_accounts)@
            },
            None => {
                let paid = amount as int;
                let fee_bps = old(config).platform_fee_bps as int;
                let configured = old(config).collaborators@;
                &&& r matches Ok(outcome) && {
                    &&& outcome.platform_amount == bps_share(paid, fee_bps)
                    &&& outcome.creator_amount == creator_share(paid, fee_bps, configured)
                    &&& outcome.collaborator_amounts@.len() == configured.len()
                    &&& forall|i: int|
                        0 <= i < configured.len()
                            ==> #[trigger] outcome.collaborator_amounts@[i]
                                == bps_share(paid, configured[i].share_bps as int)
                    &&& outcome.platform_amount + collab_total(paid, configured)
                        + outcome.creator_amount == amount
                    &&& *final(platform_balance)
                        == *old(platform_balance) + outcome.platform_amount
                    &&& *final(creator_balance)
                        == *old(creator_balance) + outcome.creator_amount
                }
                &&& final(collaborator_accounts)@.len() == configured.len()
                &&& forall|i: int|
                    0 <= i < configured.len() ==> {
                        let updated = #[trigger] final(collaborator_accounts)@[i];
                        &&& updated.identity == old(collaborator_accounts)@[i].identity
                        &&& updated.balance == old(collaborator_accounts)@[i].balance
                            + bps_share(paid, configured[i].share_bps as int)
                    }
                &&& (*final(config) == SplitConfig {
                    last_distributed_ts: now_ts,
                    vault: Vault { balance: (old(config).vault.balance - amount) as u64 },
                    ..*old(config)
                })
            },
        },
{
    if amount == 0 {
        return Err(ProtocolError::InsufficientFunds);
    }
    if !medium.accounts_ok(&supplied_mint) {
        return Err(ProtocolError::InvalidVault);
    }

    let n: usize = config.collaborators.len();
    if collaborator_accounts.len() != n {
        return Err(ProtocolError::InvalidCollaborator);
    }
    let mut i: usize = 0;
    while i < n
        invariant
            n == config.collaborators@.len(),
            collaborator_accounts@.len() == n,
            0 <= i <= n,
            forall|k: int|
                0 <= k < i
                    ==> (#[trigger] collaborator_accounts@[k].identity)
                        == config.collaborators@[k].identity,
        decreases n - i,
    {
        if collaborator_accounts[i].identity != config.collaborators[i].identity {
            return Err(ProtocolError::InvalidCollaborator);
        }
        i = i + 1;
    }

    let ghost paid = amount as int;
    let ghost configured = config.collaborators@;
    let ghost fee_bps = config.platform_fee_bps as int;

    let platform_amount: u64 = compute_bps_share(amount, config.platform_fee_bps);
    proof {
        lemma_fee_plus_collab_bound(paid, fee_bps, configured.take(0));
    }

    let mut amounts: Vec<u64> = Vec::new();
    let mut updated: Vec<RecipientAccount> = Vec::new();
    let mut total: u64 = platform_amount;
    let mut i: usize = 0;
    while i < n
        invariant
            n == config.collaborators@.len(),
            collaborator_accounts@.len() == n,
            0 <= i <= n,
            config.wf(),
            configured == config.collaborators@,
            fee_bps == config.platform_fee_bps as int,
            paid == amount as int,
            amount > 0,
            platform_amount == bps_share(paid, fee_bps),
            forall|k: int|
                0 <= k < n
                    ==> (#[trigger] collaborator_accounts@[k]).balance + amount <= u64::MAX,
            amounts@.len() == i,
            updated@.len() == i,
            forall|k: int|
                0 <= k < i
                    ==> #[trigger] amounts@[k] == bps_share(paid, configured[k].share_bps as int),
            forall|k: int|
                0 <= k < i ==> {
                    &&& (#[trigger] updated@[k]).identity == collaborator_accounts@[k].identity
                    &&& updated@[k].balance == collaborator_accounts@[k].balance + amounts@[k]
                },
            total == bps_share(paid, fee_bps) + collab_total(paid, configured.take(i as int)),
            total <= amount,
        decreases n - i,
    {
        proof {
            lemma_sum_share_bps_take_step(configured, i as int);
            lemma_sum_share_bps_prefix(configured, i as int);
            lemma_sum_share_bps_prefix(configured, i + 1 as int);
            lemma_collab_total_take_step(paid, configured, i as int);
            lemma_fee_plus_collab_bound(paid, fee_bps, configured.take(i + 1 as int));
            lemma_bps_share_bounds(paid, configured[i as int].share_bps as int);
        }
        let share: u64 = compute_bps_share(amount, config.collaborators[i].share_bps);
        total = total + share;
        amounts.push(share);
        let account = collaborator_accounts[i];
        updated.push(RecipientAccount {
            identity: account.identity,
            balance: account.balance + share,
        });
        i = i + 1;
    }
    proof {
        assert(configured.take(n as int) =~= configured);
    }
    let creator_amount: u64 = amount - total;

    config.vault.withdraw(amount);
    *platform_balance = *platform_balance + platform_amount;
    *creator_balance = *creator_balance + creator_amount;
    *collaborator_accounts = updated;
    config.last_distributed_ts = now_ts;

    Ok(DistributionOutcome { platform_amount, creator_amount, collaborator_amounts: amounts })
}

/// A distribution of a zero amount is rejected with `InsufficientFunds`,
/// whatever the medium, the accounts, or the policy; by the contract of
/// `distribute`, the configuration, its vault, and every balance are then
/// left unchanged.
pub proof fn lemma_distribute_rejects_zero_amount(
    medium: PaymentMedium,
    supplied_mint: Option<Id32>,
    configured: Seq<Collaborator>,
    supplied: Seq<RecipientAccount>,
)
    ensures
        distribute_reject(0, medium, supplied_mint, configured, supplied)
            == Some(ProtocolError::InsufficientFunds),
{
}

/// A collaborator account supplied under the wrong identity — or a missing
/// or extra entry — is rejected with `InvalidCollaborator` before anything
/// moves, whatever the rest of the call looks like.
pub proof fn lemma_distribute_rejects_mismatch(
    amount: u64,
    medium: PaymentMedium,
    supplied_mint: Option<Id32>,
    configured: Seq<Collaborator>,
    supplied: Seq<RecipientAccount>,
)
    requires
        amount > 0,
        medium.accounts_ok_spec(supplied_mint),
        !accounts_match(configured, supplied),
    ensures
        distribute_reject(amount, medium, supplied_mint, configured, supplied)
            == Some(ProtocolError::InvalidCollaborator),
{
}

} // verus!
