use vstd::prelude::*;
use crate::config::Config;
use crate::transaction::{after, spec_after, Transaction};

verus! {

/// The scheduler may claim a transaction that is not terminal and is due.
pub open spec fn spec_claimable(tx: Transaction, now: i64) -> bool {
    !tx.state.spec_is_terminal() && tx.scheduled_at <= now
}

/// The interval that a claim waits: the transaction's own, or the base
/// interval where it holds none.
pub open spec fn spec_wait(tx: Transaction, config: Config) -> i64 {
    if tx.delay > 0 {
        tx.delay
    } else {
        config.delay
    }
}

/// Twice `d`, held at `cap`.
pub open spec fn spec_next_delay(d: i64, cap: i64) -> i64 {
    if 2 * d > cap {
        cap
    } else {
        (2 * d) as i64
    }
}

/// The record after a claim at `now`: due again after its interval, which
/// doubles up to the cap for the claim after.
pub open spec fn spec_claimed(tx: Transaction, now: i64, config: Config) -> Transaction {
    Transaction {
        scheduled_at: spec_after(now, spec_wait(tx, config)),
        delay: spec_next_delay(spec_wait(tx, config), config.max_delay),
        last_modified: now,
        ..tx
    }
}

pub fn is_claimable(tx: &Transaction, now: i64) -> (r: bool)
    ensures
        r == spec_claimable(*tx, now),
{
    !tx.state.is_terminal() && tx.scheduled_at <= now
}

pub fn next_delay(d: i64, cap: i64) -> (r: i64)
    requires
        0 < d,
        0 < cap,
    ensures
        r == spec_next_delay(d, cap),
{
    if d > cap / 2 {
        cap
    } else {
        2 * d
    }
}

/// The conditional update by which one worker takes a transaction: it
/// succeeds only on a claimable record, and then pushes the record's due time
/// past `now` so that no other claim takes it within the interval.
pub fn claim(tx: &mut Transaction, now: i64, config: &Config) -> (r: bool)
    requires
        config.wf(),
    ensures
        r == spec_claimable(*old(tx), now),
        r ==> *final(tx) == spec_claimed(*old(tx), now, *config),
        !r ==> *final(tx) == *old(tx),
{
    if !is_claimable(tx, now) {
        return false;
    }
    let wait = if tx.delay > 0 {
        tx.delay
    } else {
        config.delay
    };
    tx.scheduled_at = after(now, wait);
    tx.delay = next_delay(wait, config.max_delay);
    tx.last_modified = now;
    true
}

/// Relies on `rand::Rng::gen_range` over `thread_rng`: a value in `0..n`; the
/// range must not be empty.
#[verifier::external_body]
fn random_below(n: u64) -> (r: u64)
    requires
        0 < n,
    ensures
        r < n,
{
    rand::Rng::gen_range(&mut rand::thread_rng(), 0..n)
}

/// The largest jitter added to a tick, in milliseconds.
pub const MAX_JITTER: u64 = 3000;

pub open spec fn spec_jitter_bound(config: Config) -> u64 {
    if config.cron_interval < MAX_JITTER {
        config.cron_interval
    } else {
        MAX_JITTER
    }
}

/// The pause before the next tick, in milliseconds: the base interval plus a
/// jitter `r`, taken modulo one more than the jitter bound.
pub fn tick_interval_with(config: &Config, r: u64) -> (t: u64)
    requires
        config.wf(),
    ensures
        t == config.cron_interval + (r as int) % (spec_jitter_bound(*config) + 1),
{
    let bound = if config.cron_interval < MAX_JITTER {
        config.cron_interval
    } else {
        MAX_JITTER
    };
    config.cron_interval + r % (bound + 1)
}

/// The pause before the next tick, with a random jitter, so that coordinators
/// sharing one store do not tick together.
pub fn tick_interval(config: &Config) -> (t: u64)
    requires
        config.wf(),
    ensures
        config.cron_interval <= t <= config.cron_interval + spec_jitter_bound(*config),
{
    let bound = if config.cron_interval < MAX_JITTER {
        config.cron_interval
    } else {
        MAX_JITTER
    };
    let r = random_below(bound + 1);
    tick_interval_with(config, r)
}

} // verus!
