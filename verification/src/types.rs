//! Emission parameters, the controller's errors and the persisted keys.

use vstd::prelude::*;

verus! {

/// The parameters of the emission schedule. Every deployment uses the values
/// of [`EmissionParams::default`].
#[derive(Clone, Copy, Debug, PartialEq, Eq, Structural)]
pub struct EmissionParams {
    /// Units that will ever exist.
    pub total_supply: i128,
    /// Units paid to the fund at initialization, outside the curve.
    pub allocation: i128,
    /// Share of each curve release routed to the fund, in basis points.
    pub fund_bps: i128,
    /// Elapsed time at which the curve has unlocked half of the pool.
    pub half_life: i128,
}

impl EmissionParams {
    /// The schedule every deployment runs on.
    pub open spec fn spec_default() -> Self {
        EmissionParams {
            total_supply: 10_000_000_070_000_000,
            allocation: 200_000_001_400_000,
            fund_bps: 100,
            half_life: 44_150_400,
        }
    }

    /// The part of the supply that the curve unlocks: everything but the
    /// initial allocation.
    pub open spec fn spec_pool(&self) -> int {
        self.total_supply - self.allocation
    }

    /// A schedule that the curve and the split are defined on: the allocation
    /// is a part of the supply, the fund share is a fraction in basis points,
    /// and the half-life is positive.
    pub open spec fn valid(&self) -> bool {
        &&& 0 <= self.allocation <= self.total_supply
        &&& 0 <= self.fund_bps <= 10_000
        &&& 0 < self.half_life
    }

    #[verifier::when_used_as_spec(spec_default)]
    pub fn default() -> (params: Self)
        ensures
            params == Self::spec_default(),
            params.valid(),
    {
        Self {
            total_supply: 10_000_000_070_000_000,
            allocation: 200_000_001_400_000,
            fund_bps: 100,
            half_life: 7 * 6_307_200,
        }
    }

    pub fn pool(&self) -> (pool: i128)
        requires
            i128::MIN <= self.total_supply - self.allocation <= i128::MAX,
        ensures
            pool == self.spec_pool(),
    {
        self.total_supply - self.allocation
    }
}

/// Who holds a balance or may authorize an operation: an account or a
/// contract. Two identities are the same party exactly if their ids are equal.
#[derive(Clone, Copy, Debug, PartialEq, Eq, Structural)]
pub struct Identity {
    pub id: u64,
}

/// Why `initialize` refused.
#[derive(Clone, Copy, Debug, PartialEq, Eq, Structural)]
pub enum Error {
    /// The instance already holds its state.
    AlreadyInitialized,
    /// Admin, fund and rewards are not three different identities.
    InvalidAddress,
    /// The admin does not hold exactly the total supply, or the controller
    /// already holds a balance.
    InvalidSupply,
}

impl Error {
    /// The number under which the error is reported to a caller.
    pub open spec fn spec_code(&self) -> u32 {
        match self {
            Error::AlreadyInitialized => 1,
            Error::InvalidAddress => 2,
            Error::InvalidSupply => 3,
        }
    }

    #[verifier::when_used_as_spec(spec_code)]
    pub fn code(&self) -> (code: u32)
        ensures
            code == self.spec_code(),
    {
        match self {
            Error::AlreadyInitialized => 1,
            Error::InvalidAddress => 2,
            Error::InvalidSupply => 3,
        }
    }
}

/// The keys under which an instance persists its state.
#[derive(Clone, Copy, Debug, PartialEq, Eq, Structural)]
pub enum Storage {
    Admin,
    Token,
    Fund,
    Rewards,
    Ledger,
    Emitted,
}

} // verus!
