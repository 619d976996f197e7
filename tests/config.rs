use coinflip::{threshold_of, Config, ConfigError};

#[test]
fn zero_trials_is_refused() {
    assert_eq!(Config::new(0, 5000, 1, true), Err(ConfigError::ZeroTrials));
}

#[test]
fn bias_above_hundred_is_refused() {
    assert_eq!(Config::new(10, 15000, 1, true), Err(ConfigError::BiasOutOfRange));
}

#[test]
fn negative_bias_is_refused() {
    assert_eq!(Config::new(10, -1, 1, true), Err(ConfigError::BiasOutOfRange));
}

#[test]
fn zero_workers_is_refused() {
    assert_eq!(Config::new(10, 5000, 0, false), Err(ConfigError::ZeroWorkers));
}

#[test]
fn zero_trials_is_reported_before_bad_bias() {
    assert_eq!(Config::new(0, 15000, 0, false), Err(ConfigError::ZeroTrials));
}

#[test]
fn valid_settings_are_kept() {
    let c = Config::new(1000, 7000, 4, true).unwrap();
    assert_eq!(c.trial_count, 1000);
    assert_eq!(c.bias_hundredths, 7000);
    assert_eq!(c.worker_count, 4);
    assert!(c.sink_enabled);
    assert_eq!(c.threshold(), 70);
}

#[test]
fn bias_edges_are_accepted() {
    assert!(Config::new(1, 0, 1, false).is_ok());
    assert!(Config::new(1, 10000, 1, false).is_ok());
    assert_eq!(Config::new(1, 10001, 1, false), Err(ConfigError::BiasOutOfRange));
}

#[test]
fn threshold_rounds_halves_up() {
    assert_eq!(threshold_of(0), 0);
    assert_eq!(threshold_of(49), 0);
    assert_eq!(threshold_of(50), 1);
    assert_eq!(threshold_of(4949), 49);
    assert_eq!(threshold_of(4950), 50);
    assert_eq!(threshold_of(7000), 70);
    assert_eq!(threshold_of(10000), 100);
}
