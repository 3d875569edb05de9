//! The persisted state of one deployed instance, its typed accessors and the
//! policy that keeps it alive.

use vstd::prelude::*;
use crate::types::EmissionParams;
use crate::types::Identity;
use crate::types::Storage;

verus! {

/// How close to the maximum the remaining lifetime of the state is kept: it is
/// renewed once it has fallen this many ledgers below the maximum.
pub const TTL_MARGIN: u32 = 120_960;

/// The entries that an instance persists, one per key of [`Storage`]. An entry
/// is `None` until it has been set.
#[derive(Clone, Copy, Debug, PartialEq, Eq, Structural)]
pub struct Instance {
    pub admin: Option<Identity>,
    pub token: Option<Identity>,
    pub fund: Option<Identity>,
    pub rewards: Option<Identity>,
    pub ledger: Option<u32>,
    pub emitted: Option<i128>,
}

/// A request to renew the lifetime of the persisted state: if fewer than
/// `threshold` ledgers remain, the lifetime becomes `extend_to` ledgers.
#[derive(Clone, Copy, Debug, PartialEq, Eq, Structural)]
pub struct Extension {
    pub threshold: u32,
    pub extend_to: u32,
}

impl Instance {
    /// The state of an instance that has not been initialized: no entry is set.
    pub open spec fn spec_new() -> Self {
        Instance { admin: None, token: None, fund: None, rewards: None, ledger: None, emitted: None }
    }

    /// Whether an entry is set under `key`.
    pub open spec fn spec_has(&self, key: Storage) -> bool {
        match key {
            Storage::Admin => self.admin is Some,
            Storage::Token => self.token is Some,
            Storage::Fund => self.fund is Some,
            Storage::Rewards => self.rewards is Some,
            Storage::Ledger => self.ledger is Some,
            Storage::Emitted => self.emitted is Some,
        }
    }

    /// Every entry is set: the instance has been initialized.
    pub open spec fn active(&self) -> bool {
        &&& self.admin is Some
        &&& self.token is Some
        &&& self.fund is Some
        &&& self.rewards is Some
        &&& self.ledger is Some
        &&& self.emitted is Some
    }

    /// What holds of an initialized instance for as long as it lives: admin,
    /// fund and rewards are three different identities, and the emitted total
    /// lies between zero and the pool.
    pub open spec fn consistent(&self) -> bool {
        &&& self.active()
        &&& self.admin.unwrap() != self.fund.unwrap()
        &&& self.admin.unwrap() != self.rewards.unwrap()
        &&& self.fund.unwrap() != self.rewards.unwrap()
        &&& 0 <= self.emitted.unwrap() <= EmissionParams::spec_default().spec_pool()
    }

    #[verifier::when_used_as_spec(spec_new)]
    pub fn new() -> (store: Self)
        ensures
            store == Self::spec_new(),
    {
        Instance { admin: None, token: None, fund: None, rewards: None, ledger: None, emitted: None }
    }

    #[verifier::when_used_as_spec(spec_has)]
    pub fn has(&self, key: Storage) -> (present: bool)
        ensures
            present == self.spec_has(key),
    {
        match key {
            Storage::Admin => self.admin.is_some(),
            Storage::Token => self.token.is_some(),
            Storage::Fund => self.fund.is_some(),
            Storage::Rewards => self.rewards.is_some(),
            Storage::Ledger => self.ledger.is_some(),
            Storage::Emitted => self.emitted.is_some(),
        }
    }

    /// Whether every entry is set.
    pub fn is_active(&self) -> (active: bool)
        ensures
            active == self.active(),
    {
        self.admin.is_some() && self.token.is_some() && self.fund.is_some()
            && self.rewards.is_some() && self.ledger.is_some() && self.emitted.is_some()
    }
}

impl Extension {
    /// The lifetime that remains once the request has been carried out on a
    /// state with `remaining` ledgers left.
    pub open spec fn spec_lifetime_after(&self, remaining: u32) -> u32 {
        if remaining < self.threshold {
            self.extend_to
        } else {
            remaining
        }
    }

    #[verifier::when_used_as_spec(spec_lifetime_after)]
    pub fn lifetime_after(&self, remaining: u32) -> (lifetime: u32)
        ensures
            lifetime == self.spec_lifetime_after(remaining),
    {
        if remaining < self.threshold {
            self.extend_to
        } else {
            remaining
        }
    }
}

/// The renewal that follows every operation that changes the state, for a host
/// whose longest lifetime is `max_ttl`: extend to the maximum as soon as the
/// remaining lifetime is more than [`TTL_MARGIN`] below it.
pub open spec fn renewal(max_ttl: u32) -> Extension {
    Extension {
        threshold: if max_ttl >= TTL_MARGIN { (max_ttl - TTL_MARGIN) as u32 } else { 0 },
        extend_to: max_ttl,
    }
}

/// The renewal keeps the margin: once it has been carried out, the state has
/// at most [`TTL_MARGIN`] ledgers less than the maximum left to live.
pub proof fn renewal_keeps_margin(max_ttl: u32, remaining: u32)
    ensures
        renewal(max_ttl).spec_lifetime_after(remaining) >= max_ttl - TTL_MARGIN,
        remaining <= max_ttl ==> renewal(max_ttl).spec_lifetime_after(remaining) <= max_ttl,
{
}

pub fn get_admin(store: &Instance) -> (admin: Identity)
    requires
        store.admin is Some,
    ensures
        Some(admin) == store.admin,
{
    store.admin.unwrap()
}

pub fn set_admin(store: &mut Instance, admin: &Identity)
    ensures
        *final(store) == (Instance { admin: Some(*admin), ..*old(store) }),
{
    store.admin = Some(*admin);
}

pub fn has_token(store: &Instance) -> (present: bool)
    ensures
        present == (store.token is Some),
{
    store.has(Storage::Token)
}

pub fn get_token(store: &Instance) -> (token: Identity)
    requires
        store.token is Some,
    ensures
        Some(token) == store.token,
{
    store.token.unwrap()
}

pub fn set_token(store: &mut Instance, token: &Identity)
    ensures
        *final(store) == (Instance { token: Some(*token), ..*old(store) }),
{
    store.token = Some(*token);
}

pub fn get_fund(store: &Instance) -> (fund: Identity)
    requires
        store.fund is Some,
    ensures
        Some(fund) == store.fund,
{
    store.fund.unwrap()
}

pub fn set_fund(store: &mut Instance, fund: &Identity)
    ensures
        *final(store) == (Instance { fund: Some(*fund), ..*old(store) }),
{
    store.fund = Some(*fund);
}

pub fn get_rewards(store: &Instance) -> (rewards: Identity)
    requires
        store.rewards is Some,
    ensures
        Some(rewards) == store.rewards,
{
    store.rewards.unwrap()
}

pub fn set_rewards(store: &mut Instance, rewards: &Identity)
    ensures
        *final(store) == (Instance { rewards: Some(*rewards), ..*old(store) }),
{
    store.rewards = Some(*rewards);
}

pub fn get_ledger(store: &Instance) -> (start: u32)
    requires
        store.ledger is Some,
    ensures
        Some(start) == store.ledger,
{
    store.ledger.unwrap()
}

pub fn set_ledger(store: &mut Instance, start: u32)
    ensures
        *final(store) == (Instance { ledger: Some(start), ..*old(store) }),
{
    store.ledger = Some(start);
}

pub fn get_emitted(store: &Instance) -> (emitted: i128)
    requires
        store.emitted is Some,
    ensures
        Some(emitted) == store.emitted,
{
    store.emitted.unwrap()
}

pub fn set_emitted(store: &mut Instance, emitted: i128)
    ensures
        *final(store) == (Instance { emitted: Some(emitted), ..*old(store) }),
{
    store.emitted = Some(emitted);
}

/// The renewal to request from a host whose longest lifetime is `max_ttl`.
pub fn extend_ttl(max_ttl: u32) -> (extension: Extension)
    ensures
        extension == renewal(max_ttl),
        extension.threshold <= extension.extend_to,
{
    let threshold: u32 = max_ttl.saturating_sub(TTL_MARGIN);
    Extension { threshold, extend_to: max_ttl }
}

} // verus!
