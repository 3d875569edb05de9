//! Token-emission escrow: a hyperbolic half-life emission curve and the
//! release state machine that pays the newly unlocked supply out exactly once.

use vstd::prelude::*;

pub mod emission;
pub mod escrow;
pub mod storage;
pub mod types;

use crate::escrow::initialized;
use crate::escrow::payout;
use crate::escrow::released;
use crate::escrow::replacement;
use crate::escrow::Funding;
use crate::escrow::Payout;
use crate::escrow::Replacement;
use crate::storage::Instance;
use crate::types::Error;
use crate::types::Identity;

verus! {

/// The operations of the escrow controller, as a deployed instance offers them.
pub struct Escrow;

impl Escrow {
    pub fn initialize(
        store: &mut Instance,
        admin: Identity,
        token: Identity,
        fund: Identity,
        rewards: Identity,
        ledger: u32,
        admin_balance: i128,
        custody_balance: i128,
        max_ttl: u32,
    ) -> (outcome: Result<Funding, Error>)
        ensures
            (*final(store), outcome) == initialized(
                *old(store),
                admin,
                token,
                fund,
                rewards,
                ledger,
                admin_balance as int,
                custody_balance as int,
                max_ttl,
            ),
    {
        escrow::initialize(
            store,
            admin,
            token,
            fund,
            rewards,
            ledger,
            admin_balance,
            custody_balance,
            max_ttl,
        )
    }

    pub fn release(store: &mut Instance, now: u32, max_ttl: u32) -> (paid: Payout)
        requires
            old(store).active(),
            old(store).emitted.unwrap() >= 0,
        ensures
            paid == payout(*old(store), now, max_ttl),
            *final(store) == released(*old(store), now),
    {
        escrow::release(store, now, max_ttl)
    }

    pub fn upgrade(store: &Instance, hash: [u8; 32], max_ttl: u32) -> (outcome: Result<
        Replacement,
        Error,
    >)
        requires
            store.admin is Some,
        ensures
            outcome == Ok::<Replacement, Error>(replacement(*store, hash, max_ttl)),
    {
        escrow::upgrade(store, hash, max_ttl)
    }
}

} // verus!
