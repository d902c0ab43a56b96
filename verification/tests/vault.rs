use stellovault::vault::{ContractError, StelloVaultContract};

#[test]
fn sqrt_is_the_floor_of_the_root() {
    assert_eq!(StelloVaultContract::sqrt(0), 0);
    assert_eq!(StelloVaultContract::sqrt(1), 1);
    assert_eq!(StelloVaultContract::sqrt(2), 1);
    assert_eq!(StelloVaultContract::sqrt(3), 1);
    assert_eq!(StelloVaultContract::sqrt(4), 2);
    assert_eq!(StelloVaultContract::sqrt(8), 2);
    assert_eq!(StelloVaultContract::sqrt(9), 3);
    assert_eq!(StelloVaultContract::sqrt(99), 9);
    assert_eq!(StelloVaultContract::sqrt(100), 10);
    assert_eq!(StelloVaultContract::sqrt(1_000_000), 1000);
    assert_eq!(StelloVaultContract::sqrt(u128::MAX), u64::MAX as u128);
    assert_eq!(StelloVaultContract::sqrt(u128::MAX - 1), u64::MAX as u128);
    for n in 0u128..2000 {
        let r = StelloVaultContract::sqrt(n);
        assert!(r * r <= n && n < (r + 1) * (r + 1));
    }
}

#[test]
fn ltv_limit_is_basis_points_of_the_collateral() {
    // 70% of 10_000 is 7_000.
    assert_eq!(StelloVaultContract::check_ltv(7_000, 10_000, 7000), Ok(()));
    assert_eq!(StelloVaultContract::check_ltv(7_001, 10_000, 7000), Err(ContractError::LtvExceeded));
    assert_eq!(StelloVaultContract::check_ltv(1, 10_000, 0), Err(ContractError::LtvExceeded));
    assert_eq!(StelloVaultContract::check_ltv(1, i128::MAX, 7000), Err(ContractError::MathOverflow));
    assert_eq!(ContractError::MathOverflow.code(), 18);
    assert_eq!(ContractError::LtvExceeded.code(), 16);
    assert_eq!(ContractError::QuorumNotMet.code(), 21);
}

#[test]
fn votes_weigh_by_square_root() {
    assert_eq!(StelloVaultContract::tally_vote(0, 100), Ok(10));
    assert_eq!(StelloVaultContract::tally_vote(10, 400), Ok(30));
    assert_eq!(StelloVaultContract::tally_vote(5, 100), Ok(15));
    assert_eq!(StelloVaultContract::tally_vote(5, 99), Ok(14));
    assert_eq!(StelloVaultContract::tally_vote(5, 0), Err(ContractError::ZeroWeight));
    assert_eq!(StelloVaultContract::tally_vote(u128::MAX, 1), Err(ContractError::VoteOverflow));
    assert_eq!(StelloVaultContract::tally_vote(u128::MAX - 3, 9), Ok(u128::MAX));
}
