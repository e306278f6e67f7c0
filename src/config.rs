use vstd::prelude::*;

verus! {

/// The largest backoff interval, in seconds, that a configuration may name.
pub const MAX_DELAY: i64 = 31_536_000;

/// The largest scheduler tick, in milliseconds, that a configuration may name.
pub const MAX_CRON_INTERVAL: u64 = 86_400_000;

/// Settings of the coordinator.
pub struct Config {
    /// Base interval, in seconds, before an untouched transaction is retried.
    pub delay: i64,
    /// Cap, in seconds, on the doubled retry interval.
    pub max_delay: i64,
    /// Base interval, in milliseconds, between two scheduler ticks.
    pub cron_interval: u64,
    pub database_url: String,
}

impl Config {
    /// Intervals are positive and the cap is at least the base interval.
    pub open spec fn wf(&self) -> bool {
        &&& 0 < self.delay <= self.max_delay <= MAX_DELAY
        &&& 0 < self.cron_interval <= MAX_CRON_INTERVAL
    }

    pub fn database_url(&self) -> (r: &str)
        ensures
            r@ == self.database_url@,
    {
        self.database_url.as_str()
    }
}

impl Default for Config {
    fn default() -> (r: Config)
        ensures
            r.delay == 10,
            r.max_delay == 3600,
            r.cron_interval == 3000,
            r.database_url@.len() == 0,
            r.wf(),
    {
        Config { delay: 10, max_delay: 3600, cron_interval: 3000, database_url: String::new() }
    }
}

} // verus!
