use settlement::distribute::distribute;
use settlement::{
    initialize_split, Collaborator, Id32, PaymentMedium, ProtocolError, RecipientAccount,
    SplitConfig,
};

fn id(n: u64) -> Id32 {
    Id32 { w0: n, w1: 0, w2: 0, w3: 0 }
}

fn collab(n: u64, share_bps: u16) -> Collaborator {
    Collaborator { identity: id(n), share_bps }
}

fn account(n: u64, balance: u64) -> RecipientAccount {
    RecipientAccount { identity: id(n), balance }
}

/// A funded configuration with the given policy.
fn funded_config(
    platform_fee_bps: u16,
    collaborators: Vec<Collaborator>,
    revenue: u64,
) -> SplitConfig {
    let mut config =
        initialize_split(id(2), id(3), platform_fee_bps, collaborators, 0, 0, 0).unwrap();
    config.vault.deposit(revenue);
    config
}

#[test]
fn five_percent_fee_and_one_collaborator_split_exactly() {
    let mut config = funded_config(500, vec![collab(10, 2000)], 10000);
    let mut platform: u64 = 0;
    let mut creator: u64 = 0;
    let mut accounts = vec![account(10, 50)];

    let outcome = distribute(
        &mut config,
        10000,
        PaymentMedium::Native,
        None,
        &mut platform,
        &mut creator,
        &mut accounts,
        1700000100,
    )
    .unwrap();

    assert_eq!(outcome.platform_amount, 500);
    assert_eq!(outcome.collaborator_amounts, vec![2000]);
    assert_eq!(outcome.creator_amount, 7500);
    assert_eq!(platform, 500);
    assert_eq!(creator, 7500);
    assert_eq!(accounts[0], account(10, 2050));
    assert_eq!(config.vault.balance, 0);
    assert_eq!(config.last_distributed_ts, 1700000100);
}

#[test]
fn rounding_remainder_accrues_to_the_creator() {
    let mut config = funded_config(333, vec![], 9999);
    let mut platform: u64 = 0;
    let mut creator: u64 = 0;
    let mut accounts = vec![];

    let outcome = distribute(
        &mut config,
        9999,
        PaymentMedium::Native,
        None,
        &mut platform,
        &mut creator,
        &mut accounts,
        0,
    )
    .unwrap();

    // floor(9999 * 333 / 10000) == 332, not 333: the lost fraction goes to
    // the creator, and the parts still sum to the amount exactly.
    assert_eq!(outcome.platform_amount, 332);
    assert_eq!(outcome.creator_amount, 9667);
    assert_eq!(outcome.platform_amount + outcome.creator_amount, 9999);
}

#[test]
fn parts_sum_to_the_amount_with_many_rounded_shares() {
    let shares = vec![collab(10, 1), collab(11, 333), collab(12, 667), collab(13, 2499)];
    let mut config = funded_config(999, shares, 123457);
    let mut platform: u64 = 0;
    let mut creator: u64 = 0;
    let mut accounts =
        vec![account(10, 0), account(11, 0), account(12, 0), account(13, 0)];

    let outcome = distribute(
        &mut config,
        123457,
        PaymentMedium::Native,
        None,
        &mut platform,
        &mut creator,
        &mut accounts,
        5,
    )
    .unwrap();

    assert_eq!(outcome.platform_amount, 12333);
    assert_eq!(outcome.collaborator_amounts, vec![12, 4111, 8234, 30851]);
    let paid_out: u64 = outcome.platform_amount
        + outcome.collaborator_amounts.iter().sum::<u64>()
        + outcome.creator_amount;
    assert_eq!(paid_out, 123457);
    assert_eq!(config.vault.balance, 0);
}

#[test]
fn a_zero_bps_collaborator_receives_nothing() {
    let mut config = funded_config(0, vec![collab(10, 0)], 1000);
    let mut platform: u64 = 0;
    let mut creator: u64 = 0;
    let mut accounts = vec![account(10, 77)];

    let outcome = distribute(
        &mut config,
        1000,
        PaymentMedium::Native,
        None,
        &mut platform,
        &mut creator,
        &mut accounts,
        0,
    )
    .unwrap();

    assert_eq!(outcome.collaborator_amounts, vec![0]);
    assert_eq!(accounts[0], account(10, 77));
    assert_eq!(outcome.creator_amount, 1000);
}

#[test]
fn zero_amount_is_rejected_and_nothing_moves() {
    let mut config = funded_config(500, vec![collab(10, 2000)], 10000);
    let mut platform: u64 = 1;
    let mut creator: u64 = 2;
    let mut accounts = vec![account(10, 3)];

    let r = distribute(
        &mut config,
        0,
        PaymentMedium::Native,
        None,
        &mut platform,
        &mut creator,
        &mut accounts,
        99,
    );

    assert_eq!(r.unwrap_err(), ProtocolError::InsufficientFunds);
    assert_eq!(config.vault.balance, 10000);
    assert_eq!(config.last_distributed_ts, 0);
    assert_eq!(platform, 1);
    assert_eq!(creator, 2);
    assert_eq!(accounts, vec![account(10, 3)]);
}

#[test]
fn wrong_collaborator_identity_aborts_the_whole_call() {
    let mut config = funded_config(500, vec![collab(10, 2000), collab(11, 1000)], 10000);
    let mut platform: u64 = 0;
    let mut creator: u64 = 0;
    // The second account is supplied under a foreign identity.
    let mut accounts = vec![account(10, 0), account(12, 0)];

    let r = distribute(
        &mut config,
        10000,
        PaymentMedium::Native,
        None,
        &mut platform,
        &mut creator,
        &mut accounts,
        99,
    );

    assert_eq!(r.unwrap_err(), ProtocolError::InvalidCollaborator);
    // No transfer occurred for any party.
    assert_eq!(config.vault.balance, 10000);
    assert_eq!(config.last_distributed_ts, 0);
    assert_eq!(platform, 0);
    assert_eq!(creator, 0);
    assert_eq!(accounts, vec![account(10, 0), account(12, 0)]);
}

#[test]
fn missing_collaborator_account_aborts_the_whole_call() {
    let mut config = funded_config(500, vec![collab(10, 2000), collab(11, 1000)], 10000);
    let mut platform: u64 = 0;
    let mut creator: u64 = 0;
    let mut accounts = vec![account(10, 0)];

    let r = distribute(
        &mut config,
        10000,
        PaymentMedium::Native,
        None,
        &mut platform,
        &mut creator,
        &mut accounts,
        99,
    );
    assert_eq!(r.unwrap_err(), ProtocolError::InvalidCollaborator);
    assert_eq!(config.vault.balance, 10000);
}

#[test]
fn extra_collaborator_account_aborts_the_whole_call() {
    let mut config = funded_config(500, vec![collab(10, 2000)], 10000);
    let mut platform: u64 = 0;
    let mut creator: u64 = 0;
    let mut accounts = vec![account(10, 0), account(11, 0)];

    let r = distribute(
        &mut config,
        10000,
        PaymentMedium::Native,
        None,
        &mut platform,
        &mut creator,
        &mut accounts,
        99,
    );
    assert_eq!(r.unwrap_err(), ProtocolError::InvalidCollaborator);
    assert_eq!(config.vault.balance, 10000);
}

#[test]
fn token_distribution_needs_matching_accounts() {
    let mint = id(77);
    let mut config = funded_config(500, vec![], 10000);
    let mut platform: u64 = 0;
    let mut creator: u64 = 0;
    let mut accounts = vec![];

    let missing = distribute(
        &mut config,
        10000,
        PaymentMedium::Token(mint),
        None,
        &mut platform,
        &mut creator,
        &mut accounts,
        99,
    );
    assert_eq!(missing.unwrap_err(), ProtocolError::InvalidVault);
    assert_eq!(config.vault.balance, 10000);

    let foreign = distribute(
        &mut config,
        10000,
        PaymentMedium::Token(mint),
        Some(id(78)),
        &mut platform,
        &mut creator,
        &mut accounts,
        99,
    );
    assert_eq!(foreign.unwrap_err(), ProtocolError::InvalidVault);
    assert_eq!(config.vault.balance, 10000);

    let outcome = distribute(
        &mut config,
        10000,
        PaymentMedium::Token(mint),
        Some(mint),
        &mut platform,
        &mut creator,
        &mut accounts,
        99,
    )
    .unwrap();
    assert_eq!(outcome.platform_amount, 500);
    assert_eq!(outcome.creator_amount, 9500);
    assert_eq!(config.vault.balance, 0);
    assert_eq!(config.last_distributed_ts, 99);
}

#[test]
fn a_partial_distribution_leaves_the_rest_in_the_vault() {
    let mut config = funded_config(1000, vec![], 5000);
    let mut platform: u64 = 0;
    let mut creator: u64 = 0;
    let mut accounts = vec![];

    let outcome = distribute(
        &mut config,
        2000,
        PaymentMedium::Native,
        None,
        &mut platform,
        &mut creator,
        &mut accounts,
        7,
    )
    .unwrap();
    assert_eq!(outcome.platform_amount, 200);
    assert_eq!(outcome.creator_amount, 1800);
    assert_eq!(config.vault.balance, 3000);
}

#[test]
fn the_largest_amounts_split_exactly() {
    // Just under 2^63, with the fee at its cap and one collaborator taking
    // almost everything else.
    let a: u64 = 9223372036854775807;
    let mut config = funded_config(1000, vec![collab(10, 8999)], a);
    let mut platform: u64 = 0;
    let mut creator: u64 = 0;
    let mut accounts = vec![account(10, 0)];

    let outcome = distribute(
        &mut config,
        a,
        PaymentMedium::Native,
        None,
        &mut platform,
        &mut creator,
        &mut accounts,
        1,
    )
    .unwrap();
    assert_eq!(outcome.platform_amount, 922337203685477580);
    assert_eq!(outcome.collaborator_amounts, vec![8300112495965612748]);
    assert_eq!(outcome.creator_amount, 922337203685479);
    assert_eq!(
        outcome.platform_amount + outcome.collaborator_amounts[0] + outcome.creator_amount,
        a
    );
    assert_eq!(config.vault.balance, 0);

    // The full u64 range behaves the same.
    let m: u64 = u64::MAX;
    let mut config = funded_config(1000, vec![], m);
    let mut platform: u64 = 0;
    let mut creator: u64 = 0;
    let mut accounts = vec![];
    let outcome = distribute(
        &mut config,
        m,
        PaymentMedium::Native,
        None,
        &mut platform,
        &mut creator,
        &mut accounts,
        2,
    )
    .unwrap();
    assert_eq!(outcome.platform_amount, 1844674407370955161);
    assert_eq!(outcome.creator_amount, 16602069666338596454);
    assert_eq!(outcome.platform_amount + outcome.creator_amount, m);
}
