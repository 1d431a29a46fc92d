//! The node configuration: a heartbeat interval from which the election timeouts
//! are derived, and the validated Raft timing it yields.

use std::time::Duration;
use vstd::prelude::*;

verus! {

/// The number of whole milliseconds in a duration, as `Duration::as_millis` reports it.
pub uninterp spec fn duration_millis(d: Duration) -> u128;

/// The whole milliseconds of `d`, with `Duration::as_millis`.
#[verifier::external_body]
pub(crate) fn duration_as_millis(d: &Duration) -> (r: u128)
    ensures
        r == duration_millis(*d),
{
    d.as_millis()
}

/// The duration that `Duration::from_millis` makes of `ms` milliseconds.
pub uninterp spec fn duration_of_millis(ms: u64) -> Duration;

/// A duration of `ms` milliseconds, with `Duration::from_millis`; its
/// `Duration::as_millis` is `ms` again.
#[verifier::external_body]
pub(crate) fn duration_from_millis(ms: u64) -> (r: Duration)
    ensures
        r == duration_of_millis(ms),
        duration_millis(r) == ms as u128,
{
    Duration::from_millis(ms)
}

/// `Duration` is `Copy`: its `clone` returns the same duration.
pub assume_specification[ <Duration as Clone>::clone ](d: &Duration) -> (r: Duration)
    ensures
        r == *d,
;

/// The Raft timing parameters, in milliseconds.
#[derive(Debug, Clone, Copy, PartialEq, Eq)]
pub struct Config {
    /// How often a leader sends heartbeats.
    pub heartbeat_interval: u64,
    /// The least time a follower waits for a heartbeat before it starts an election.
    pub election_timeout_min: u64,
    /// The greatest such time; the actual timeout is picked between the two.
    pub election_timeout_max: u64,
}

/// A rejected configuration.
#[derive(Debug, Clone, Copy, PartialEq, Eq)]
pub enum ConfigError {
    /// The election timeout range is empty: `min >= max`.
    ElectionTimeout { min: u64, max: u64 },
    /// The election timeout is not longer than the heartbeat interval.
    ElectionTimeoutLTHeartBeat { election_timeout_min: u64, heartbeat_interval: u64 },
}

impl Config {
    /// Accepts this configuration when its election timeout range is non-empty and
    /// exceeds the heartbeat interval.
    pub fn validate(self) -> (r: Result<Config, ConfigError>)
        ensures
            r == self.validate_spec(),
            r is Ok <==> self.heartbeat_interval < self.election_timeout_min
                && self.election_timeout_min < self.election_timeout_max,
            r matches Ok(v) ==> v == self,
    {
        if self.election_timeout_min >= self.election_timeout_max {
            return Err(
                ConfigError::ElectionTimeout {
                    min: self.election_timeout_min,
                    max: self.election_timeout_max,
                },
            );
        }
        if self.election_timeout_min <= self.heartbeat_interval {
            return Err(
                ConfigError::ElectionTimeoutLTHeartBeat {
                    election_timeout_min: self.election_timeout_min,
                    heartbeat_interval: self.heartbeat_interval,
                },
            );
        }
        Ok(self)
    }
}

/// The node configuration: just the heartbeat interval.
///
/// The election timeout is derived from it: three to six heartbeat intervals.
#[derive(Debug, Clone)]
pub struct EzConfig {
    pub heartbeat_interval: Duration,
}

/// The heartbeat interval of `c` in whole milliseconds, cut to 64 bits.
pub open spec fn heartbeat_ms(c: EzConfig) -> u64 {
    duration_millis(c.heartbeat_interval) as u64
}

/// The Raft timing derived from a heartbeat of `h` milliseconds, before validation.
pub open spec fn derived_config(h: u64) -> Config {
    Config { heartbeat_interval: h, election_timeout_min: (h * 3) as u64, election_timeout_max: (h * 6) as u64 }
}

impl EzConfig {
    /// The default configuration: a heartbeat every 500 ms.
    pub fn default() -> (r: Self)
        ensures
            r.heartbeat_interval == duration_of_millis(500),
            duration_millis(r.heartbeat_interval) == 500,
    {
        EzConfig { heartbeat_interval: duration_from_millis(500) }
    }

    /// The validated Raft timing of this configuration: the heartbeat interval in
    /// milliseconds, and an election timeout of three to six of them.
    pub fn to_raft_config(&self) -> (r: Result<Config, ConfigError>)
        requires
            heartbeat_ms(*self) * 6 <= u64::MAX,
        ensures
            r == derived_config(heartbeat_ms(*self)).validate_spec(),
    {
        let ms = duration_as_millis(&self.heartbeat_interval) as u64;
        let config = Config {
            heartbeat_interval: ms,
            election_timeout_min: ms * 3,
            election_timeout_max: ms * 6,
        };
        config.validate()
    }

    /// The validated Raft timing of this configuration, or `None` when six heartbeat
    /// intervals do not fit in 64 bits of milliseconds.
    pub fn checked_raft_config(&self) -> (r: Option<Result<Config, ConfigError>>)
        ensures
            r == if heartbeat_ms(*self) * 6 <= u64::MAX {
                Some(derived_config(heartbeat_ms(*self)).validate_spec())
            } else {
                None::<Result<Config, ConfigError>>
            },
    {
        let ms = duration_as_millis(&self.heartbeat_interval) as u64;
        if ms > u64::MAX / 6 {
            None
        } else {
            Some(self.to_raft_config())
        }
    }
}

impl Config {
    /// What `validate` returns for this configuration.
    pub open spec fn validate_spec(self) -> Result<Config, ConfigError> {
        if self.election_timeout_min >= self.election_timeout_max {
            Err(
                ConfigError::ElectionTimeout {
                    min: self.election_timeout_min,
                    max: self.election_timeout_max,
                },
            )
        } else if self.election_timeout_min <= self.heartbeat_interval {
            Err(
                ConfigError::ElectionTimeoutLTHeartBeat {
                    election_timeout_min: self.election_timeout_min,
                    heartbeat_interval: self.heartbeat_interval,
                },
            )
        } else {
            Ok(self)
        }
    }
}

/// Law: any positive heartbeat interval that fits yields a valid configuration whose
/// election timeout lies between three and six heartbeats.
pub proof fn lemma_positive_heartbeat_is_valid(h: u64)
    requires
        0 < h,
        h * 6 <= u64::MAX,
    ensures
        derived_config(h).validate_spec() == Ok::<Config, ConfigError>(derived_config(h)),
        derived_config(h).election_timeout_min == 3 * h,
        derived_config(h).election_timeout_max == 6 * h,
{
}

/// Law: a configuration is accepted, unchanged, exactly when the heartbeat interval is
/// shorter than the least election timeout, which is shorter than the greatest; an
/// empty timeout range is reported first, then a timeout that does not exceed the
/// heartbeat.
pub proof fn lemma_validate_accepts_exactly_ordered_timing(c: Config)
    ensures
        c.validate_spec() is Ok <==> c.heartbeat_interval < c.election_timeout_min
            && c.election_timeout_min < c.election_timeout_max,
        c.validate_spec() matches Ok(v) ==> v == c,
        c.election_timeout_min >= c.election_timeout_max ==> c.validate_spec() == Err::<
            Config,
            ConfigError,
        >(ConfigError::ElectionTimeout { min: c.election_timeout_min, max: c.election_timeout_max }),
        c.election_timeout_min < c.election_timeout_max && c.election_timeout_min
            <= c.heartbeat_interval ==> c.validate_spec() == Err::<Config, ConfigError>(
            ConfigError::ElectionTimeoutLTHeartBeat {
                election_timeout_min: c.election_timeout_min,
                heartbeat_interval: c.heartbeat_interval,
            },
        ),
{
}

/// Law: a zero heartbeat interval is rejected, as the election timeout range is empty.
pub proof fn lemma_zero_heartbeat_is_rejected()
    ensures
        derived_config(0).validate_spec() == Err::<Config, ConfigError>(
            ConfigError::ElectionTimeout { min: 0, max: 0 },
        ),
{
}

} // verus!
