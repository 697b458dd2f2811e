use ore_core::{VaultAccount, VaultSchedule};

fn ten_periods() -> VaultSchedule {
    VaultSchedule {
        start_ts: 1000,
        cliff_ts: None,
        period_seconds: 100,
        release_per_period: 5,
        period_count: 10,
    }
}

#[test]
fn released_follows_the_schedule() {
    let s = ten_periods();
    assert_eq!(s.released_amount(999), 0);
    assert_eq!(s.released_amount(1000), 0);
    assert_eq!(s.released_amount(1050), 0);
    assert_eq!(s.released_amount(1100), 5);
    assert_eq!(s.released_amount(1199), 5);
    assert_eq!(s.released_amount(1200), 10);
    assert_eq!(s.released_amount(2000), 50);
    assert_eq!(s.released_amount(2500), 50);
    assert_eq!(s.released_amount(i64::MAX), 50);
}

#[test]
fn claims_advance_by_exactly_the_claimable_amount() {
    let s = ten_periods();
    let mut vault = VaultAccount::new("miner".to_string(), s);
    assert_eq!(vault.claim(1100), 5);
    assert_eq!(vault.claimed_amount, 5);
    assert_eq!(vault.claim(1250), 5);
    assert_eq!(vault.claimed_amount, 10);
}

#[test]
fn claiming_twice_at_the_same_instant_yields_zero() {
    let s = ten_periods();
    let mut vault = VaultAccount::new("miner".to_string(), s);
    let first = vault.claim(1764);
    assert_eq!(first, 35);
    let second = vault.claim(1764);
    assert_eq!(second, 0);
    assert_eq!(vault.claimed_amount, 35);
}

#[test]
fn cliff_blocks_release_until_reached() {
    let s = VaultSchedule {
        cliff_ts: Some(1500),
        ..ten_periods()
    };
    assert_eq!(s.released_amount(1499), 0);
    assert_eq!(s.released_amount(1500), 25);
}

#[test]
fn degenerate_period_releases_the_whole_total_at_start() {
    let s = VaultSchedule {
        period_seconds: 0,
        ..ten_periods()
    };
    assert_eq!(s.released_amount(999), 0);
    assert_eq!(s.released_amount(1000), 50);
    let negative = VaultSchedule {
        period_seconds: -7,
        ..ten_periods()
    };
    assert_eq!(negative.released_amount(1000), 50);
}

#[test]
fn released_never_exceeds_the_total_and_never_decreases() {
    let s = VaultSchedule {
        start_ts: -500,
        cliff_ts: Some(-100),
        period_seconds: 37,
        release_per_period: 3,
        period_count: 1000,
    };
    let total = s.total_amount();
    assert_eq!(total, 3000);
    let mut previous = 0u64;
    for now in (-600..4000).step_by(13) {
        let released = s.released_amount(now);
        assert!(released >= previous);
        assert!(released <= total);
        previous = released;
    }
}

#[test]
fn saturating_total_is_capped() {
    let s = VaultSchedule {
        start_ts: 0,
        cliff_ts: None,
        period_seconds: 1,
        release_per_period: u64::MAX / 2,
        period_count: 3,
    };
    assert_eq!(s.total_amount(), u64::MAX);
    assert_eq!(s.released_amount(10), u64::MAX);
}

#[test]
fn claimable_is_zero_when_claimed_exceeds_released() {
    let s = ten_periods();
    assert_eq!(s.claimable_amount(1200, 10), 0);
    assert_eq!(s.claimable_amount(1200, 11), 0);
    assert_eq!(s.claimable_amount(1200, 9), 1);
}

#[test]
fn vault_account_construction_starts_unclaimed() {
    let s = ten_periods();
    let vault = VaultAccount::new("team".to_string(), s);
    assert_eq!(vault.claimed_amount, 0);
    assert_eq!(vault.beneficiary, "team");
    assert_eq!(vault.schedule, s);
    assert_eq!(vault.claimable_amount(1100), 5);
}
