//! The command gate: given a cooldown policy and the current time, it
//! decides whether a command may fire, records the fire when it may,
//! and computes the remaining wait when it may not.
//!
//! The decision and the paired store update are one read-modify-write;
//! a caller that shares the store between concurrent invocations must
//! hold one lock acquisition over the whole call, and must not hold it
//! across any slow outside work.

use vstd::prelude::*;
use crate::cooldown::CooldownStore;

verus! {

/// The bucket a cooldown is tracked against: each caller on its own,
/// or one shared bucket for a whole guild.
#[derive(Clone, Copy, Debug, PartialEq, Eq, Structural)]
pub enum CooldownScope {
    PerCaller,
    PerGuild,
}

/// Per-command cooldown configuration: which bucket, and the minimum
/// number of seconds between permitted fires in that bucket.
#[derive(Clone, Copy, Debug, PartialEq, Eq, Structural)]
pub struct CooldownPolicy {
    pub scope: CooldownScope,
    pub duration_secs: u64,
}

/// Outcome of a gate check: fire now, or wait `remaining_secs` more.
#[derive(Clone, Copy, Debug, PartialEq, Eq, Structural)]
pub enum GateDecision {
    Allowed,
    Denied { remaining_secs: u64 },
}

/// The key a cooldown is tracked under: the caller's own identifier,
/// or the guild's shared one, as the policy's scope directs.
pub fn scope_key_for(scope: CooldownScope, caller_id: u64, guild_id: u64) -> (r: u64)
    ensures
        r == match scope {
            CooldownScope::PerCaller => caller_id,
            CooldownScope::PerGuild => guild_id,
        },
{
    match scope {
        CooldownScope::PerCaller => caller_id,
        CooldownScope::PerGuild => guild_id,
    }
}

/// Seconds elapsed from a recorded fire to `now`.  A record that lies
/// in the future (a clock that moved backwards) counts as just fired.
pub open spec fn elapsed_spec(last_fire: u64, now: u64) -> int {
    if now >= last_fire {
        now - last_fire
    } else {
        0
    }
}

/// What one check of `scope_key` against a duration of `d` seconds
/// decides at time `now`, over the store's map `m`:
/// with no record, or a record at least `d` seconds old, the fire is
/// allowed; otherwise it is denied with the wait still owed, which is
/// `max(0, d - (now - last_fire))`.
pub open spec fn decision_spec(m: Map<u64, u64>, scope_key: u64, d: u64, now: u64) -> GateDecision {
    if !m.contains_key(scope_key) {
        GateDecision::Allowed
    } else if elapsed_spec(m[scope_key], now) >= d {
        GateDecision::Allowed
    } else {
        GateDecision::Denied { remaining_secs: (d - elapsed_spec(m[scope_key], now)) as u64 }
    }
}

/// The store's map after one check: an allowed fire records `now`
/// under `scope_key`; a denied one leaves the store unchanged.
pub open spec fn store_after_spec(m: Map<u64, u64>, scope_key: u64, d: u64, now: u64) -> Map<
    u64,
    u64,
> {
    if decision_spec(m, scope_key, d, now) is Allowed {
        m.insert(scope_key, now)
    } else {
        m
    }
}

/// Decide whether the command may fire now, and if so record the fire,
/// atomically with respect to the borrow of `store`.
pub fn check_and_maybe_start(
    store: &mut CooldownStore,
    scope_key: u64,
    policy: &CooldownPolicy,
    now: u64,
) -> (r: GateDecision)
    ensures
        r == decision_spec(old(store)@, scope_key, policy.duration_secs, now),
        final(store)@ == store_after_spec(old(store)@, scope_key, policy.duration_secs, now),
{
    let d = policy.duration_secs;
    match store.get_last_fire(scope_key) {
        None => {
            store.set_last_fire(scope_key, now);
            GateDecision::Allowed
        },
        Some(last_fire) => {
            let elapsed: u64 = if now >= last_fire {
                now - last_fire
            } else {
                0
            };
            if elapsed >= d {
                store.set_last_fire(scope_key, now);
                GateDecision::Allowed
            } else {
                GateDecision::Denied { remaining_secs: d - elapsed }
            }
        },
    }
}

/// A fresh scope key is always allowed immediately.
pub proof fn lemma_fresh_key_allowed(m: Map<u64, u64>, scope_key: u64, d: u64, now: u64)
    requires
        !m.contains_key(scope_key),
    ensures
        decision_spec(m, scope_key, d, now) is Allowed,
        store_after_spec(m, scope_key, d, now) == m.insert(scope_key, now),
{
}

/// A zero duration always allows, and still resets the last fire.
pub proof fn lemma_zero_duration_allows(m: Map<u64, u64>, scope_key: u64, now: u64)
    ensures
        decision_spec(m, scope_key, 0, now) is Allowed,
        store_after_spec(m, scope_key, 0, now) == m.insert(scope_key, now),
{
}

/// Two checks in a row, less than the full duration apart: when the
/// first is allowed, the second is denied, and it owes exactly the
/// part of the duration that has not yet elapsed.
pub proof fn lemma_second_call_denied(
    m: Map<u64, u64>,
    scope_key: u64,
    d: u64,
    now1: u64,
    now2: u64,
)
    requires
        now1 <= now2,
        now2 - now1 < d,
        decision_spec(m, scope_key, d, now1) is Allowed,
    ensures
        decision_spec(store_after_spec(m, scope_key, d, now1), scope_key, d, now2)
            == (GateDecision::Denied { remaining_secs: (d - (now2 - now1)) as u64 }),
{
}

/// Two checks a full duration or more apart: when the first is
/// allowed, the second is allowed as well.
pub proof fn lemma_elapsed_duration_allows(
    m: Map<u64, u64>,
    scope_key: u64,
    d: u64,
    now1: u64,
    now2: u64,
)
    requires
        now1 <= now2,
        now2 - now1 >= d,
        decision_spec(m, scope_key, d, now1) is Allowed,
    ensures
        decision_spec(store_after_spec(m, scope_key, d, now1), scope_key, d, now2) is Allowed,
{
}

/// How many of `n` checks of the same scope key, all at the same
/// instant and run one after the other over the store, are allowed.
pub open spec fn count_allowed_spec(m: Map<u64, u64>, scope_key: u64, d: u64, now: u64, n: nat) -> nat
    decreases n,
{
    if n == 0 {
        0
    } else {
        let here: nat = if decision_spec(m, scope_key, d, now) is Allowed {
            1
        } else {
            0
        };
        here + count_allowed_spec(
            store_after_spec(m, scope_key, d, now),
            scope_key,
            d,
            now,
            (n - 1) as nat,
        )
    }
}

/// A check of a key whose record was set at this very instant, against
/// a positive duration, is denied and leaves the store unchanged.
proof fn lemma_just_fired_denied(m: Map<u64, u64>, scope_key: u64, d: u64, now: u64)
    requires
        d > 0,
        m.contains_key(scope_key),
        m[scope_key] == now,
    ensures
        decision_spec(m, scope_key, d, now) == (GateDecision::Denied { remaining_secs: d }),
        store_after_spec(m, scope_key, d, now) == m,
{
}

/// Repeated checks of a just-fired key at the same instant allow none.
proof fn lemma_just_fired_none_allowed(m: Map<u64, u64>, scope_key: u64, d: u64, now: u64, n: nat)
    requires
        d > 0,
        m.contains_key(scope_key),
        m[scope_key] == now,
    ensures
        count_allowed_spec(m, scope_key, d, now, n) == 0,
    decreases n,
{
    if n > 0 {
        lemma_just_fired_denied(m, scope_key, d, now);
        lemma_just_fired_none_allowed(m, scope_key, d, now, (n - 1) as nat);
    }
}

/// Contention on a fresh scope key: of any number of checks made at
/// the same instant, one after the other over the store, exactly one
/// is allowed and every other is denied.
pub proof fn lemma_one_winner(m: Map<u64, u64>, scope_key: u64, d: u64, now: u64, n: nat)
    requires
        !m.contains_key(scope_key),
        d > 0,
        n >= 1,
    ensures
        count_allowed_spec(m, scope_key, d, now, n) == 1,
{
    lemma_fresh_key_allowed(m, scope_key, d, now);
    lemma_just_fired_none_allowed(m.insert(scope_key, now), scope_key, d, now, (n - 1) as nat);
}

} // verus!
