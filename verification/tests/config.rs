use btop::config::{DEFAULT_BUF_CAPACITY, DEFAULT_GRAPH_CLEARANCE_MW, DEFAULT_TICK_RATE_MS};
use btop::{Config, ConfigError};

#[test]
fn default_config_values() {
    let config = Config::default();
    assert_eq!(config.tick_rate(), 1500);
    assert_eq!(config.buf_capacity(), 100);
    assert!(!config.graph());
    assert_eq!(config.graph_clearance(), 1000);
    assert_eq!(config.upper_index(), 99);
}

#[test]
fn default_constants() {
    assert_eq!(DEFAULT_TICK_RATE_MS, 1500);
    assert_eq!(DEFAULT_BUF_CAPACITY, 100);
    assert_eq!(DEFAULT_GRAPH_CLEARANCE_MW, 1000);
}

#[test]
fn config_keeps_what_it_was_given() {
    let config = Config::new(250, 7, true, 42).unwrap();
    assert_eq!(config.tick_rate(), 250);
    assert_eq!(config.buf_capacity(), 7);
    assert!(config.graph());
    assert_eq!(config.graph_clearance(), 42);
    assert_eq!(config.upper_index(), 6);
}

#[test]
fn zero_capacity_is_rejected() {
    assert_eq!(Config::new(1000, 0, false, 0).err(), Some(ConfigError::ZeroCapacity));
}

#[test]
fn zero_interval_is_rejected() {
    assert_eq!(Config::new(0, 10, false, 0).err(), Some(ConfigError::ZeroInterval));
}

#[test]
fn zero_capacity_is_reported_before_zero_interval() {
    assert_eq!(Config::new(0, 0, true, 9).err(), Some(ConfigError::ZeroCapacity));
}

#[test]
fn smallest_config_is_accepted() {
    let config = Config::new(1, 1, false, 0).unwrap();
    assert_eq!(config.upper_index(), 0);
    assert_eq!(config.buf_capacity(), 1);
    assert_eq!(config.tick_rate(), 1);
}

#[test]
fn largest_config_is_accepted() {
    let config = Config::new(u64::MAX, usize::MAX, true, u32::MAX).unwrap();
    assert_eq!(config.tick_rate(), u64::MAX);
    assert_eq!(config.upper_index(), usize::MAX - 1);
    assert_eq!(config.graph_clearance(), u32::MAX);
}
