//! Arithmetic of the governance contract: votes weigh by the square root
//! of the voter's stake.

use vstd::prelude::*;
use crate::arith::{basis_points_of, spec_basis_points};

verus! {

/// Why an operation of the vault was refused.
#[derive(Clone, Copy, Debug, PartialEq, Eq, Structural)]
pub enum ContractError {
    Unauthorized,
    InsufficientBalance,
    InvalidAmount,
    EscrowNotFound,
    EscrowError,
    EscrowExpired,
    EscrowNotExpired,
    EscrowAlreadyReleased,
    ProposalNotFound,
    ProposalNotActive,
    AlreadyVoted,
    VotePeriodEnded,
    ZeroWeight,
    AssetNotWhitelisted,
    OracleNotWhitelisted,
    LtvExceeded,
    CollateralNotFound,
    MathOverflow,
    VoteOverflow,
    VotePeriodActive,
    QuorumNotMet,
}

impl ContractError {
    /// The number under which the error crosses the contract boundary.
    pub open spec fn spec_code(self) -> u32 {
        match self {
            ContractError::Unauthorized => 1,
            ContractError::InsufficientBalance => 2,
            ContractError::InvalidAmount => 3,
            ContractError::EscrowNotFound => 4,
            ContractError::EscrowError => 5,
            ContractError::EscrowExpired => 6,
            ContractError::EscrowNotExpired => 7,
            ContractError::EscrowAlreadyReleased => 8,
            ContractError::ProposalNotFound => 9,
            ContractError::ProposalNotActive => 10,
            ContractError::AlreadyVoted => 11,
            ContractError::VotePeriodEnded => 12,
            ContractError::ZeroWeight => 13,
            ContractError::AssetNotWhitelisted => 14,
            ContractError::OracleNotWhitelisted => 15,
            ContractError::LtvExceeded => 16,
            ContractError::CollateralNotFound => 17,
            ContractError::MathOverflow => 18,
            ContractError::VoteOverflow => 19,
            ContractError::VotePeriodActive => 20,
            ContractError::QuorumNotMet => 21,
        }
    }

    /// The number under which the error crosses the contract boundary.
    pub fn code(&self) -> (res: u32)
        ensures
            res == self.spec_code(),
    {
        match self {
            ContractError::Unauthorized => 1,
            ContractError::InsufficientBalance => 2,
            ContractError::InvalidAmount => 3,
            ContractError::EscrowNotFound => 4,
            ContractError::EscrowError => 5,
            ContractError::EscrowExpired => 6,
            ContractError::EscrowNotExpired => 7,
            ContractError::EscrowAlreadyReleased => 8,
            ContractError::ProposalNotFound => 9,
            ContractError::ProposalNotActive => 10,
            ContractError::AlreadyVoted => 11,
            ContractError::VotePeriodEnded => 12,
            ContractError::ZeroWeight => 13,
            ContractError::AssetNotWhitelisted => 14,
            ContractError::OracleNotWhitelisted => 15,
            ContractError::LtvExceeded => 16,
            ContractError::CollateralNotFound => 17,
            ContractError::MathOverflow => 18,
            ContractError::VoteOverflow => 19,
            ContractError::VotePeriodActive => 20,
            ContractError::QuorumNotMet => 21,
        }
    }
}

/// Where an escrow of the vault stands.
#[derive(Clone, Copy, Debug, PartialEq, Eq, Structural)]
pub enum EscrowStatus {
    Pending,
    Active,
    Released,
    Cancelled,
    Disputed,
}

/// The vault contract, as far as its arithmetic goes: the loan-to-value
/// limit of an escrow and the square-root weight of a vote.
#[derive(Clone, Copy, Debug)]
pub struct StelloVaultContract;

/// Why an escrow amount is refused against a collateral's value, if it is:
/// `MathOverflow` when `asset_value * max_ltv_bps` leaves the 128-bit
/// range, `LtvExceeded` when the amount is above `asset_value * max_ltv_bps
/// / 10000`.
pub open spec fn spec_ltv_error(amount: i128, asset_value: i128, max_ltv_bps: u32) -> Option<
    ContractError,
> {
    match spec_basis_points(asset_value as int, max_ltv_bps as int) {
        None => Some(ContractError::MathOverflow),
        Some(limit) => if amount > limit {
            Some(ContractError::LtvExceeded)
        } else {
            None
        },
    }
}

/// Whether `root` is the integer square root of `n`: the largest number
/// whose square does not exceed `n`.
pub open spec fn is_integer_sqrt(n: int, root: int) -> bool {
    root >= 0 && root * root <= n < (root + 1) * (root + 1)
}

/// A number has one integer square root.
pub proof fn integer_sqrt_is_unique(n: int, a: int, b: int)
    requires
        is_integer_sqrt(n, a),
        is_integer_sqrt(n, b),
    ensures
        a == b,
{
    if a < b {
        assert((a + 1) * (a + 1) <= b * b) by (nonlinear_arith)
            requires
                0 <= a,
                a + 1 <= b,
        ;
    }
    if b < a {
        assert((b + 1) * (b + 1) <= a * a) by (nonlinear_arith)
            requires
                0 <= b,
                b + 1 <= a,
        ;
    }
}

/// A number whose successor squared exceeds `n` stays so after one Newton
/// step that lowers it, and a step that does not lower it shows that its
/// square is at most `n`.
proof fn newton_step(n: int, x: int, q: int, y: int)
    requires
        x >= 1,
        q == n / x,
        n >= 0,
        y == (x + q) / 2,
    ensures
        (y + 1) * (y + 1) > n,
        y >= x ==> x * x <= n,
{
    let r = n % x;
    assert(n == x * q + r && 0 <= r < x) by {
        vstd::arithmetic::div_mod::lemma_fundamental_div_mod(n, x);
    }
    assert(q >= 0) by (nonlinear_arith)
        requires
            n == x * q + r,
            0 <= r < x,
            n >= 0,
            x >= 1,
    ;
    let s = x + q;
    assert(2 * (y + 1) >= s + 1);
    assert(n < x * (q + 1)) by (nonlinear_arith)
        requires
            n == x * q + r,
            r < x,
    ;
    assert((s + 1) * (s + 1) >= 4 * (x * (q + 1))) by (nonlinear_arith)
        requires
            s == x + q,
    ;
    assert(4 * ((y + 1) * (y + 1)) >= (s + 1) * (s + 1)) by (nonlinear_arith)
        requires
            2 * (y + 1) >= s + 1,
            s + 1 >= 0,
    ;
    if y >= x {
        assert(q >= x);
        assert(x * x <= n) by (nonlinear_arith)
            requires
                q >= x,
                x >= 1,
                n == x * q + r,
                r >= 0,
        ;
    }
}

/// The sum in a Newton step does not leave the range of the numbers.
proof fn newton_sum_bound(n: int, x: int)
    requires
        n >= 2,
        1 <= x <= n / 2,
        (x + 1) * (x + 1) > n,
    ensures
        1 <= n / x,
        x + n / x <= n + 1,
        n > 3 ==> x + n / x <= n,
{
    let q = n / x;
    let r = n % x;
    assert(n == x * q + r && 0 <= r < x) by {
        vstd::arithmetic::div_mod::lemma_fundamental_div_mod(n, x);
    }
    if x == 1 {
        assert((x + 1) * (x + 1) == 4) by (nonlinear_arith)
            requires
                x == 1,
        ;
        assert(q == n) by (nonlinear_arith)
            requires
                n == x * q + r,
                0 <= r < x,
                x == 1,
        ;
    }
    assert(q >= 2 && (x >= 2 ==> 2 * q <= n)) by (nonlinear_arith)
        requires
            n == x * q + r,
            0 <= r < x,
            2 * x <= n,
            x >= 1,
    ;
}

impl StelloVaultContract {
    /// Checks an escrow amount against the loan-to-value limit of its
    /// collateral, in basis points of the collateral's value.
    pub fn check_ltv(amount: i128, asset_value: i128, max_ltv_bps: u32) -> (res: Result<
        (),
        ContractError,
    >)
        ensures
            match spec_ltv_error(amount, asset_value, max_ltv_bps) {
                Some(e) => res == Err::<(), ContractError>(e),
                None => res is Ok,
            },
    {
        match basis_points_of(asset_value, max_ltv_bps) {
            None => Err(ContractError::MathOverflow),
            Some(limit) => {
                if amount > limit {
                    Err(ContractError::LtvExceeded)
                } else {
                    Ok(())
                }
            },
        }
    }

    /// Adds a vote of the given stake to a tally. The vote counts with the
    /// integer square root of the stake. A stake of zero is refused with
    /// `ZeroWeight`, a tally that would leave the 128-bit range with
    /// `VoteOverflow`.
    pub fn tally_vote(vote_count: u128, weight: u128) -> (res: Result<u128, ContractError>)
        ensures
            weight == 0 ==> res == Err::<u128, ContractError>(ContractError::ZeroWeight),
            weight > 0 ==> match res {
                Ok(total) => is_integer_sqrt(weight as int, total - vote_count),
                Err(e) => e == ContractError::VoteOverflow && exists|root: int|
                    is_integer_sqrt(weight as int, root) && vote_count + root > u128::MAX,
            },
    {
        if weight == 0 {
            return Err(ContractError::ZeroWeight);
        }
        let votes = Self::sqrt(weight);
        match vote_count.checked_add(votes) {
            Some(total) => Ok(total),
            None => {
                assert(is_integer_sqrt(weight as int, votes as int));
                Err(ContractError::VoteOverflow)
            },
        }
    }

    /// The integer square root, by Newton's iteration from `n / 2`.
    pub fn sqrt(n: u128) -> (res: u128)
        ensures
            is_integer_sqrt(n as int, res as int),
    {
        if n < 2 {
            assert(is_integer_sqrt(n as int, n as int)) by (nonlinear_arith)
                requires
                    0 <= n < 2,
            ;
            return n;
        }
        let mut x: u128 = n / 2;
        proof {
            let h = (n / 2) as int;
            assert((h + 1) * (h + 1) > n) by (nonlinear_arith)
                requires
                    n <= 2 * h + 1,
                    h >= 1,
            ;
            newton_sum_bound(n as int, x as int);
            newton_step(n as int, x as int, (n / x) as int, ((x + n / x) / 2) as int);
        }
        let mut y: u128 = (x + n / x) / 2;
        while y < x
            invariant
                n >= 2,
                1 <= x <= n / 2,
                (x + 1) * (x + 1) > n,
                y == (x + n / x) / 2,
                (y + 1) * (y + 1) > n,
                y >= x ==> x * x <= n,
                y >= 1,
            decreases x,
        {
            x = y;
            proof {
                newton_sum_bound(n as int, x as int);
                newton_step(n as int, x as int, (n / x) as int, ((x + n / x) / 2) as int);
            }
            y = (x + n / x) / 2;
        }
        x
    }
}

} // verus!
