//! The escrow controller: it takes the whole supply into custody once, and
//! from then on decides what each release pays and to whom.
//!
//! The controller moves no funds and proves no identity itself. Every
//! operation takes the persisted state and what the host has observed, and
//! answers with the new state and the actions that the host has to carry out.

use vstd::prelude::*;
use crate::emission::delta;
use crate::emission::lemma_unlocked_bounds;
use crate::emission::lemma_unlocked_monotone;
use crate::emission::spec_delta;
use crate::emission::unlocked;
use crate::storage;
use crate::storage::renewal;
use crate::storage::Extension;
use crate::storage::Instance;
use crate::types::EmissionParams;
use crate::types::Error;
use crate::types::Identity;

verus! {

/// What the host carries out after a successful `initialize`.
#[derive(Clone, Copy, Debug, PartialEq, Eq, Structural)]
pub struct Funding {
    /// Whose authorization the funds move under.
    pub authorizer: Identity,
    /// Moved from the authorizer into custody.
    pub deposit: i128,
    /// Moved from custody to the fund right away.
    pub allocation: i128,
    pub extension: Extension,
}

/// What a `release` pays from custody.
#[derive(Clone, Copy, Debug, PartialEq, Eq, Structural)]
pub struct Payout {
    /// The amount newly due; zero means that nothing is to be done.
    pub amount: i128,
    /// The part of `amount` that goes to the fund.
    pub fund_share: i128,
    /// The part of `amount` that goes to rewards.
    pub rewards_share: i128,
    /// The renewal of the state's lifetime, if the state has changed.
    pub extension: Option<Extension>,
}

/// What the host carries out for an `upgrade`.
#[derive(Clone, Copy, Debug, PartialEq, Eq)]
pub struct Replacement {
    /// Whose authorization the logic is replaced under.
    pub authorizer: Identity,
    /// The hash of the logic that governs the instance from now on.
    pub hash: [u8; 32],
    pub extension: Extension,
}

/// The fund's part of a release: `floor(delta * fund_bps / 10000)`.
pub open spec fn spec_fund_share(delta: int) -> int {
    delta * EmissionParams::spec_default().fund_bps / 10_000
}

/// The rewards' part of a release: all that the fund does not get, so that
/// what the division rounds off goes to rewards.
pub open spec fn spec_rewards_share(delta: int) -> int {
    delta - spec_fund_share(delta)
}

/// Why `initialize` refuses, if it does. The checks come in this order: the
/// instance holds no state yet; admin, fund and rewards differ; the admin
/// holds the total supply exactly and custody holds nothing.
pub open spec fn refusal(
    store: Instance,
    admin: Identity,
    fund: Identity,
    rewards: Identity,
    admin_balance: int,
    custody_balance: int,
) -> Option<Error> {
    if store.token is Some {
        Some(Error::AlreadyInitialized)
    } else if admin == fund || admin == rewards || fund == rewards {
        Some(Error::InvalidAddress)
    } else if admin_balance != EmissionParams::spec_default().total_supply || custody_balance
        != 0 {
        Some(Error::InvalidSupply)
    } else {
        None
    }
}

/// The state that `initialize` creates.
pub open spec fn created(
    admin: Identity,
    token: Identity,
    fund: Identity,
    rewards: Identity,
    ledger: u32,
) -> Instance {
    Instance {
        admin: Some(admin),
        token: Some(token),
        fund: Some(fund),
        rewards: Some(rewards),
        ledger: Some(ledger),
        emitted: Some(0),
    }
}

/// What `initialize` answers on success: the whole supply is deposited under
/// the admin's authorization and the allocation is paid to the fund.
pub open spec fn funding(admin: Identity, max_ttl: u32) -> Funding {
    Funding {
        authorizer: admin,
        deposit: EmissionParams::spec_default().total_supply,
        allocation: EmissionParams::spec_default().allocation,
        extension: renewal(max_ttl),
    }
}

/// The state after `initialize` and its answer: on refusal the state as it
/// was and the reason, else the created state and the funding.
pub open spec fn initialized(
    store: Instance,
    admin: Identity,
    token: Identity,
    fund: Identity,
    rewards: Identity,
    ledger: u32,
    admin_balance: int,
    custody_balance: int,
    max_ttl: u32,
) -> (Instance, Result<Funding, Error>) {
    match refusal(store, admin, fund, rewards, admin_balance, custody_balance) {
        Some(error) => (store, Err(error)),
        None => (created(admin, token, fund, rewards, ledger), Ok(funding(admin, max_ttl))),
    }
}

/// The amount that a release at clock value `now` pays.
pub open spec fn due(store: Instance, now: u32) -> int {
    spec_delta(store.ledger.unwrap(), now, store.emitted.unwrap() as int)
}

/// The state after a release at clock value `now`: the emitted total grows by
/// the amount due and nothing else changes.
pub open spec fn released(store: Instance, now: u32) -> Instance {
    Instance { emitted: Some((store.emitted.unwrap() + due(store, now)) as i128), ..store }
}

/// The payout of a release at clock value `now`.
pub open spec fn payout(store: Instance, now: u32, max_ttl: u32) -> Payout {
    let amount = due(store, now);
    Payout {
        amount: amount as i128,
        fund_share: spec_fund_share(amount) as i128,
        rewards_share: spec_rewards_share(amount) as i128,
        extension: if amount == 0 {
            None
        } else {
            Some(renewal(max_ttl))
        },
    }
}

/// What `upgrade` answers: the logic is replaced under the admin's
/// authorization.
pub open spec fn replacement(store: Instance, hash: [u8; 32], max_ttl: u32) -> Replacement {
    Replacement { authorizer: store.admin.unwrap(), hash: hash, extension: renewal(max_ttl) }
}

/// The two shares of a release add up to it exactly, and neither is negative.
pub proof fn split_exact(delta: int)
    requires
        0 <= delta,
    ensures
        spec_fund_share(delta) + spec_rewards_share(delta) == delta,
        0 <= spec_fund_share(delta) <= delta,
        0 <= spec_rewards_share(delta) <= delta,
{
}

/// A second release at the same clock value pays nothing and leaves the state
/// as the first one left it.
pub proof fn release_idempotent(store: Instance, now: u32)
    requires
        store.active(),
        store.emitted.unwrap() >= 0,
    ensures
        due(released(store, now), now) == 0,
        released(released(store, now), now) == released(store, now),
{
    lemma_unlocked_bounds(store.ledger.unwrap(), now);
}

/// Releases converge: a release at an earlier clock value followed by one at a
/// later value pays in total what a single release at the later value pays,
/// and leaves the same state.
pub proof fn release_converges(store: Instance, earlier: u32, later: u32)
    requires
        store.active(),
        store.emitted.unwrap() >= 0,
        earlier <= later,
    ensures
        due(store, earlier) + due(released(store, earlier), later) == due(store, later),
        released(released(store, earlier), later) == released(store, later),
{
    let origin = store.ledger.unwrap();
    lemma_unlocked_bounds(origin, earlier);
    lemma_unlocked_bounds(origin, later);
    lemma_unlocked_monotone(origin, earlier, later);
}

/// The emitted total follows the curve: if it is what the curve had unlocked
/// at the clock value of the last release, then after a release at a clock
/// value that is not earlier it is what the curve has unlocked there.
pub proof fn release_tracks_curve(store: Instance, last: u32, now: u32)
    requires
        store.active(),
        store.emitted.unwrap() == unlocked(store.ledger.unwrap(), last),
        last <= now,
    ensures
        released(store, now).emitted.unwrap() == unlocked(store.ledger.unwrap(), now),
{
    let origin = store.ledger.unwrap();
    lemma_unlocked_bounds(origin, last);
    lemma_unlocked_bounds(origin, now);
    lemma_unlocked_monotone(origin, last, now);
}

/// Custody covers every release: of the pool that initialization left in
/// custody, a consistent state has paid out its emitted total, and no release
/// is due more than the rest.
pub proof fn release_within_custody(store: Instance, now: u32)
    requires
        store.consistent(),
    ensures
        0 <= due(store, now) <= EmissionParams::spec_default().spec_pool()
            - store.emitted.unwrap(),
        released(store, now).consistent(),
{
    lemma_unlocked_bounds(store.ledger.unwrap(), now);
}

/// A newly created state is on the curve at every clock value up to its
/// origin: nothing is emitted and nothing is unlocked.
pub proof fn created_on_curve(
    admin: Identity,
    token: Identity,
    fund: Identity,
    rewards: Identity,
    ledger: u32,
    now: u32,
)
    requires
        now <= ledger,
    ensures
        created(admin, token, fund, rewards, ledger).emitted.unwrap() == unlocked(ledger, now),
        created(admin, token, fund, rewards, ledger).active(),
{
}

/// Splits a release between the fund and rewards. The two shares add up to
/// `delta` exactly.
pub fn split(delta: i128) -> (shares: (i128, i128))
    requires
        0 <= delta,
    ensures
        shares.0 == spec_fund_share(delta as int),
        shares.1 == spec_rewards_share(delta as int),
        shares.0 + shares.1 == delta,
        0 <= shares.0 <= delta,
        0 <= shares.1 <= delta,
{
    let params = EmissionParams::default();
    let whole: i128 = delta / 10_000;
    let part: i128 = delta % 10_000;
    let fund: i128 = whole * params.fund_bps + (part * params.fund_bps) / 10_000;
    let rewards: i128 = delta - fund;
    (fund, rewards)
}

/// The first two checks of `initialize`, which need nothing from the host:
/// that the instance holds no state yet and that the three identities differ.
pub fn precheck(store: &Instance, admin: Identity, fund: Identity, rewards: Identity) -> (outcome:
    Result<(), Error>)
    ensures
        outcome == Err::<(), Error>(Error::AlreadyInitialized) <==> store.token is Some,
        outcome == Err::<(), Error>(Error::InvalidAddress) <==> store.token is None && (admin
            == fund || admin == rewards || fund == rewards),
        outcome is Ok <==> store.token is None && admin != fund && admin != rewards && fund
            != rewards,
{
    if storage::has_token(store) {
        return Err(Error::AlreadyInitialized);
    }
    // Provenance requirement checks (addresses).
    if admin == fund || admin == rewards || fund == rewards {
        return Err(Error::InvalidAddress);
    }
    Ok(())
}

/// Creates the state of an instance, once.
///
/// `admin_balance` and `custody_balance` are what the admin and the controller
/// hold of the asset. On success the state is created with nothing emitted and
/// the curve starting at `ledger`; the host then moves the deposit and the
/// allocation under the admin's authorization. On refusal the state is left as
/// it was.
pub fn initialize(
    store: &mut Instance,
    admin: Identity,
    token: Identity,
    fund: Identity,
    rewards: Identity,
    ledger: u32,
    admin_balance: i128,
    custody_balance: i128,
    max_ttl: u32,
) -> (outcome: Result<Funding, Error>)
    ensures
        (*final(store), outcome) == initialized(
            *old(store),
            admin,
            token,
            fund,
            rewards,
            ledger,
            admin_balance as int,
            custody_balance as int,
            max_ttl,
        ),
        outcome is Ok ==> final(store).consistent(),
        outcome is Ok ==> outcome.unwrap().deposit - outcome.unwrap().allocation
            == EmissionParams::spec_default().spec_pool(),
{
    match precheck(store, admin, fund, rewards) {
        Err(error) => {
            return Err(error);
        },
        Ok(()) => {},
    }
    // Provenance requirement checks (supply).
    let params = EmissionParams::default();
    if admin_balance != params.total_supply || custody_balance != 0 {
        return Err(Error::InvalidSupply);
    }
    storage::set_admin(store, &admin);
    storage::set_token(store, &token);
    storage::set_fund(store, &fund);
    storage::set_rewards(store, &rewards);
    storage::set_ledger(store, ledger);
    storage::set_emitted(store, 0);
    Ok(
        Funding {
            authorizer: admin,
            deposit: params.total_supply,
            allocation: params.allocation,
            extension: storage::extend_ttl(max_ttl),
        },
    )
}

/// Pays out what the curve has unlocked at clock value `now` beyond what has
/// been emitted already.
///
/// Where nothing is due the state is left as it was and the payout asks for
/// nothing. Otherwise the emitted total grows by the amount due, which the
/// payout splits between the fund and rewards.
pub fn release(store: &mut Instance, now: u32, max_ttl: u32) -> (paid: Payout)
    requires
        old(store).active(),
        old(store).emitted.unwrap() >= 0,
    ensures
        paid == payout(*old(store), now, max_ttl),
        *final(store) == released(*old(store), now),
        paid.amount == 0 ==> *final(store) == *old(store),
        paid.fund_share + paid.rewards_share == paid.amount,
        final(store).emitted.unwrap() == old(store).emitted.unwrap() + paid.amount,
        final(store).emitted.unwrap() >= old(store).emitted.unwrap(),
        paid.amount > 0 ==> final(store).emitted.unwrap() == unlocked(
            old(store).ledger.unwrap(),
            now,
        ),
        old(store).consistent() ==> final(store).consistent(),
{
    let origin: u32 = storage::get_ledger(store);
    let realized: i128 = storage::get_emitted(store);
    let delta: i128 = delta(origin, now, realized);
    if delta == 0 {
        return Payout { amount: 0, fund_share: 0, rewards_share: 0, extension: None };
    }
    proof {
        lemma_unlocked_bounds(origin, now);
    }
    let (fund, rewards) = split(delta);
    storage::set_emitted(store, realized + delta);
    Payout {
        amount: delta,
        fund_share: fund,
        rewards_share: rewards,
        extension: Some(storage::extend_ttl(max_ttl)),
    }
}

/// Replaces the logic that governs the instance. The state is not touched.
pub fn upgrade(store: &Instance, hash: [u8; 32], max_ttl: u32) -> (outcome: Result<
    Replacement,
    Error,
>)
    requires
        store.admin is Some,
    ensures
        outcome == Ok::<Replacement, Error>(replacement(*store, hash, max_ttl)),
{
    let admin = storage::get_admin(store);
    Ok(Replacement { authorizer: admin, hash, extension: storage::extend_ttl(max_ttl) })
}

} // verus!
