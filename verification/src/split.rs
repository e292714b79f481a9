//! The revenue-split policy: one configuration per content item, declaring a
//! platform fee and an ordered list of collaborator shares, all in basis
//! points. The policy is validated once at creation; the creator always
//! retains the remainder the declared shares leave behind.

use vstd::prelude::*;
use crate::errors::ProtocolError;
use crate::types::{Id32, Vault};

verus! {

/// One collaborator of a revenue split: an identity and its share of every
/// distributed amount, in basis points (1/100 of a percent).
#[derive(Clone, Copy, Debug, PartialEq, Eq, Structural)]
pub struct Collaborator {
    pub identity: Id32,
    pub share_bps: u16,
}

/// The sum of the declared collaborator shares, in basis points.
pub open spec fn sum_share_bps(collaborators: Seq<Collaborator>) -> int
    decreases collaborators.len(),
{
    if collaborators.len() == 0 {
        0
    } else {
        sum_share_bps(collaborators.drop_last()) + collaborators.last().share_bps
    }
}

/// No two collaborators declare the same identity.
pub open spec fn identities_distinct(collaborators: Seq<Collaborator>) -> bool {
    forall|i: int, j: int|
        #![trigger collaborators[i].identity, collaborators[j].identity]
        0 <= i < j < collaborators.len()
            ==> collaborators[i].identity != collaborators[j].identity
}

/// A valid policy: the platform fee is at most 1000 basis points (10%), the
/// declared shares and the fee together stay strictly under 10000 (so the
/// creator's remainder is never negative), and no collaborator identity is
/// repeated.
pub open spec fn policy_ok(platform_fee_bps: u16, collaborators: Seq<Collaborator>) -> bool {
    &&& platform_fee_bps <= 1000
    &&& sum_share_bps(collaborators) + platform_fee_bps < 10000
    &&& identities_distinct(collaborators)
}

/// The revenue-split policy of one content item, with the custodial vault
/// its revenue accumulates in. Created once; after that only
/// `last_distributed_ts` ever changes.
#[derive(Debug)]
pub struct SplitConfig {
    pub creator: Id32,
    /// The fixed-size opaque identifier of the content this policy is for.
    pub content_id: Id32,
    /// The platform's fee in basis points, at most 1000.
    pub platform_fee_bps: u16,
    /// The declared collaborators, in the order per-call accounts must be
    /// supplied in.
    pub collaborators: Vec<Collaborator>,
    /// Caller-supplied disambiguator for the configuration's derived address.
    pub seed: u64,
    /// When a distribution last succeeded; creation time until then.
    pub last_distributed_ts: i64,
    /// The uniqueness nonce of the record's derived address, assigned by the
    /// surrounding ledger.
    pub derivation_nonce: u8,
    /// The custodial vault revenue accumulates in.
    pub vault: Vault,
}

impl SplitConfig {
    /// The configuration's invariant: its policy is valid.
    pub open spec fn wf(&self) -> bool {
        policy_ok(self.platform_fee_bps, self.collaborators@)
    }
}

/// Every prefix of a collaborator list declares at most the shares of the
/// whole list.
pub proof fn lemma_sum_share_bps_prefix(collaborators: Seq<Collaborator>, n: int)
    requires
        0 <= n <= collaborators.len(),
    ensures
        0 <= sum_share_bps(collaborators.take(n)) <= sum_share_bps(collaborators),
    decreases collaborators.len(),
{
    if collaborators.len() == 0 {
        assert(collaborators.take(n) =~= collaborators);
    } else if n == collaborators.len() {
        assert(collaborators.take(n) =~= collaborators);
        lemma_sum_share_bps_prefix(collaborators.drop_last(), collaborators.len() - 1);
    } else {
        assert(collaborators.drop_last().take(n) =~= collaborators.take(n));
        lemma_sum_share_bps_prefix(collaborators.drop_last(), n);
    }
}

/// Taking one more collaborator adds exactly its share to the prefix sum.
pub proof fn lemma_sum_share_bps_take_step(collaborators: Seq<Collaborator>, n: int)
    requires
        0 <= n < collaborators.len(),
    ensures
        sum_share_bps(collaborators.take(n + 1))
            == sum_share_bps(collaborators.take(n)) + collaborators[n].share_bps,
{
    assert(collaborators.take(n + 1).drop_last() =~= collaborators.take(n));
    assert(collaborators.take(n + 1).last() == collaborators[n]);
}

/// Creates a revenue-split configuration with an empty bound vault.
///
/// Fails with `InvalidSplitConfig` exactly when the policy is invalid: a
/// platform fee over 1000 basis points, shares that together with the fee
/// reach 10000, or a duplicate collaborator identity. On success the
/// configuration holds the given policy verbatim and an empty vault, and its
/// last-distribution timestamp starts at the creation time.
pub fn initialize_split(
    creator: Id32,
    content_id: Id32,
    platform_fee_bps: u16,
    collaborators: Vec<Collaborator>,
    seed: u64,
    created_ts: i64,
    derivation_nonce: u8,
) -> (r: Result<SplitConfig, ProtocolError>)
    ensures
        match r {
            Ok(config) => {
                &&& policy_ok(platform_fee_bps, collaborators@)
                &&& config.wf()
                &&& config.creator == creator
                &&& config.content_id == content_id
                &&& config.platform_fee_bps == platform_fee_bps
                &&& config.collaborators@ == collaborators@
                &&& config.seed == seed
                &&& config.last_distributed_ts == created_ts
                &&& config.derivation_nonce == derivation_nonce
                &&& config.vault.balance == 0
            },
            Err(e) => {
                &&& e == ProtocolError::InvalidSplitConfig
                &&& !policy_ok(platform_fee_bps, collaborators@)
            },
        },
{
    if platform_fee_bps > 1000 {
        return Err(ProtocolError::InvalidSplitConfig);
    }

    // The running share sum stays under 10000, so a u32 cannot overflow even
    // with the next u16 share added.
    let mut total_bps: u32 = 0;
    let mut i: usize = 0;
    while i < collaborators.len()
        invariant
            0 <= i <= collaborators@.len(),
            platform_fee_bps <= 1000,
            total_bps == sum_share_bps(collaborators@.take(i as int)),
            total_bps + platform_fee_bps < 10000,
        decreases collaborators@.len() - i,
    {
        let share: u16 = collaborators[i].share_bps;
        proof {
            lemma_sum_share_bps_take_step(collaborators@, i as int);
        }
        let next: u32 = total_bps + share as u32;
        if next + platform_fee_bps as u32 >= 10000 {
            proof {
                lemma_sum_share_bps_prefix(collaborators@, i + 1);
            }
            return Err(ProtocolError::InvalidSplitConfig);
        }
        total_bps = next;
        i = i + 1;
    }
    proof {
        assert(collaborators@.take(collaborators@.len() as int) =~= collaborators@);
    }

    let mut a: usize = 0;
    while a < collaborators.len()
        invariant
            0 <= a <= collaborators@.len(),
            forall|i: int, j: int|
                #![trigger collaborators@[i].identity, collaborators@[j].identity]
                0 <= i < j < a ==> collaborators@[i].identity != collaborators@[j].identity,
        decreases collaborators@.len() - a,
    {
        let mut b: usize = 0;
        while b < a
            invariant
                0 <= b <= a < collaborators@.len(),
                forall|i: int, j: int|
                    #![trigger collaborators@[i].identity, collaborators@[j].identity]
                    0 <= i < j < a ==> collaborators@[i].identity != collaborators@[j].identity,
                forall|i: int|
                    0 <= i < b ==> #[trigger] collaborators@[i].identity
                        != collaborators@[a as int].identity,
            decreases a - b,
        {
            if collaborators[b].identity == collaborators[a].identity {
                proof {
                    assert(collaborators@[b as int].identity
                        == collaborators@[a as int].identity);
                    assert(!identities_distinct(collaborators@));
                }
                return Err(ProtocolError::InvalidSplitConfig);
            }
            b = b + 1;
        }
        a = a + 1;
    }

    Ok(SplitConfig {
        creator,
        content_id,
        platform_fee_bps,
        collaborators,
        seed,
        last_distributed_ts: created_ts,
        derivation_nonce,
        vault: Vault::new(),
    })
}

} // verus!
