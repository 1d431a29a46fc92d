use std::time::Duration;

use ezraft::config::Config;
use ezraft::config::ConfigError;
use ezraft::config::EzConfig;

#[test]
fn default_config_derives_election_timeout() {
    let c = EzConfig::default();
    assert_eq!(Duration::from_millis(500), c.heartbeat_interval);
    let r = c.to_raft_config().unwrap();
    assert_eq!(
        Config { heartbeat_interval: 500, election_timeout_min: 1500, election_timeout_max: 3000 },
        r
    );
}

#[test]
fn short_heartbeat_config() {
    let c = EzConfig { heartbeat_interval: Duration::from_millis(100) };
    let r = c.to_raft_config().unwrap();
    assert_eq!(300, r.election_timeout_min);
    assert_eq!(600, r.election_timeout_max);
}

#[test]
fn zero_heartbeat_is_rejected() {
    let c = EzConfig { heartbeat_interval: Duration::from_micros(900) };
    assert_eq!(Err(ConfigError::ElectionTimeout { min: 0, max: 0 }), c.to_raft_config());
}

#[test]
fn huge_heartbeat_does_not_fit() {
    let c = EzConfig { heartbeat_interval: Duration::from_millis(u64::MAX / 2) };
    assert_eq!(None, c.checked_raft_config());
    let ok = EzConfig { heartbeat_interval: Duration::from_millis(7) };
    assert_eq!(Some(ok.to_raft_config()), ok.checked_raft_config());
}

#[test]
fn config_validation_errors() {
    let c = Config { heartbeat_interval: 10, election_timeout_min: 10, election_timeout_max: 20 };
    assert_eq!(
        Err(ConfigError::ElectionTimeoutLTHeartBeat { election_timeout_min: 10, heartbeat_interval: 10 }),
        c.validate()
    );
    let c = Config { heartbeat_interval: 1, election_timeout_min: 30, election_timeout_max: 20 };
    assert_eq!(Err(ConfigError::ElectionTimeout { min: 30, max: 20 }), c.validate());
}
