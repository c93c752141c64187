use btop::{
    App, ChargeState, Config, ProviderError, RawReading, Snapshot, Technology, TickError,
};

fn reading(state: ChargeState, power_mw: u32) -> RawReading {
    RawReading {
        charge_ppm: 640_000,
        vendor: Some(String::from("ACME")),
        model: None,
        serial_number: None,
        power_mw,
        energy_mwh: 30_000,
        time_to_empty_s: Some(3_600),
        time_to_full_s: None,
        temperature_mk: None,
        voltage_mv: 12_100,
        cycle_count: Some(17),
        state,
        health_ppm: 990_000,
        technology: Technology::LithiumPolymer,
    }
}

fn app_with_capacity(capacity: usize) -> App {
    App::new(Config::new(1_000, capacity, true, 1_000).unwrap())
}

#[test]
fn new_app_is_blank() {
    let app = app_with_capacity(4);
    assert_eq!(*app.snapshot(), Snapshot::blank());
    assert!(app.power_bar().is_empty());
    assert_eq!(app.power_bar().capacity(), 4);
    assert_eq!(app.power_bar().max_value(), 0);
    assert_eq!(app.power_bar().min_value(), 0);
    assert_eq!(app.config().buf_capacity(), 4);
    assert_eq!(app.config().tick_rate(), 1_000);
    assert_eq!(app.get_power_bar_grid(), Vec::<(usize, i64)>::new());
}

#[test]
fn tick_replaces_snapshot_and_records_power() {
    let mut app = app_with_capacity(4);
    assert_eq!(app.on_tick(Ok(vec![reading(ChargeState::Discharging, 8_500)])), Ok(()));
    assert_eq!(
        *app.snapshot(),
        Snapshot {
            charge_ppm: 640_000,
            vendor: String::from("ACME"),
            model: String::new(),
            serial_number: String::from("Unknown"),
            power_mw: 8_500,
            energy_mwh: 30_000,
            time_to_empty_s: 3_600,
            time_to_full_s: 0,
            temperature_mk: 0,
            voltage_mv: 12_100,
            cycle_count: 17,
            state: ChargeState::Discharging,
            health_ppm: 990_000,
            technology: Technology::LithiumPolymer,
        }
    );
    assert_eq!(app.power_bar().to_vec(), vec![8_500]);
    assert_eq!(app.power_bar().max_value(), 8_500);
    assert_eq!(app.power_bar().min_value(), 8_500);
}

#[test]
fn charging_tick_records_negative_power() {
    let mut app = app_with_capacity(4);
    assert_eq!(app.on_tick(Ok(vec![reading(ChargeState::Charging, 5_000)])), Ok(()));
    assert_eq!(app.power_bar().to_vec(), vec![-5_000]);
    assert_eq!(app.snapshot().power_mw, 5_000);
    assert_eq!(app.snapshot().state, ChargeState::Charging);
}

#[test]
fn only_the_first_source_is_sampled() {
    let mut app = app_with_capacity(4);
    let sources = vec![
        reading(ChargeState::Discharging, 1_111),
        reading(ChargeState::Charging, 2_222),
        reading(ChargeState::Full, 3_333),
    ];
    assert_eq!(app.on_tick(Ok(sources)), Ok(()));
    assert_eq!(app.power_bar().to_vec(), vec![1_111]);
    assert_eq!(app.snapshot().power_mw, 1_111);
}

#[test]
fn ticks_fill_and_then_roll_the_history() {
    let mut app = app_with_capacity(3);
    for power in [10_000, 20_000, 30_000, 40_000] {
        assert_eq!(app.on_tick(Ok(vec![reading(ChargeState::Discharging, power)])), Ok(()));
    }
    assert_eq!(app.power_bar().to_vec(), vec![20_000, 30_000, 40_000]);
    assert_eq!(app.power_bar().max_value(), 40_000);
    assert_eq!(app.power_bar().min_value(), 20_000);
    assert_eq!(app.snapshot().power_mw, 40_000);
    assert_eq!(
        app.get_power_bar_grid(),
        vec![(2, 40_000), (1, 30_000), (0, 20_000)]
    );
}

#[test]
fn mixed_ticks_track_both_extrema() {
    let mut app = app_with_capacity(5);
    assert_eq!(app.on_tick(Ok(vec![reading(ChargeState::Charging, 7_000)])), Ok(()));
    assert_eq!(app.on_tick(Ok(vec![reading(ChargeState::Discharging, 3_000)])), Ok(()));
    assert_eq!(app.on_tick(Ok(vec![reading(ChargeState::Full, 0)])), Ok(()));
    assert_eq!(app.power_bar().to_vec(), vec![-7_000, 3_000, 0]);
    assert_eq!(app.power_bar().max_value(), 3_000);
    assert_eq!(app.power_bar().min_value(), -7_000);
    assert_eq!(app.get_power_bar_grid(), vec![(4, 0), (3, 3_000), (2, -7_000)]);
}

#[test]
fn largest_power_is_recorded_exactly() {
    let mut app = app_with_capacity(2);
    assert_eq!(app.on_tick(Ok(vec![reading(ChargeState::Charging, u32::MAX)])), Ok(()));
    assert_eq!(app.on_tick(Ok(vec![reading(ChargeState::Empty, u32::MAX)])), Ok(()));
    assert_eq!(app.power_bar().to_vec(), vec![-4_294_967_295, 4_294_967_295]);
}

#[test]
fn zero_sources_is_fatal_and_changes_nothing() {
    let mut app = app_with_capacity(3);
    assert_eq!(app.on_tick(Ok(vec![reading(ChargeState::Discharging, 9_000)])), Ok(()));
    assert_eq!(app.on_tick(Ok(Vec::new())), Err(TickError::NoSource));
    assert_eq!(app.power_bar().to_vec(), vec![9_000]);
    assert_eq!(app.snapshot().power_mw, 9_000);
    assert_eq!(app.snapshot().vendor, "ACME");
    assert_eq!(app.power_bar().max_value(), 9_000);
    assert_eq!(app.power_bar().min_value(), 9_000);
}

#[test]
fn zero_sources_on_a_new_app_leaves_it_blank() {
    let mut app = app_with_capacity(3);
    assert_eq!(app.on_tick(Ok(Vec::new())), Err(TickError::NoSource));
    assert_eq!(*app.snapshot(), Snapshot::blank());
    assert!(app.power_bar().is_empty());
}

#[test]
fn provider_failure_is_fatal_and_changes_nothing() {
    for error in [
        ProviderError::ManagerUnavailable,
        ProviderError::EnumerationFailed,
        ProviderError::SourceUnreadable,
    ] {
        let mut app = app_with_capacity(3);
        assert_eq!(app.on_tick(Ok(vec![reading(ChargeState::Charging, 4_000)])), Ok(()));
        assert_eq!(app.on_tick(Err(error)), Err(TickError::Provider(error)));
        assert_eq!(app.power_bar().to_vec(), vec![-4_000]);
        assert_eq!(app.snapshot().state, ChargeState::Charging);
    }
}

#[test]
fn diagnostics() {
    assert_eq!(
        TickError::Provider(ProviderError::ManagerUnavailable).diagnostic(),
        "Expected battery manager"
    );
    assert_eq!(
        TickError::Provider(ProviderError::EnumerationFailed).diagnostic(),
        "Expected at least one battery"
    );
    assert_eq!(
        TickError::Provider(ProviderError::SourceUnreadable).diagnostic(),
        "Expected battery"
    );
    assert_eq!(TickError::NoSource.diagnostic(), "Expected at least one battery");
}

#[test]
fn config_survives_ticks() {
    let mut app = App::new(Config::new(750, 2, false, 250).unwrap());
    assert_eq!(app.on_tick(Ok(vec![reading(ChargeState::Discharging, 1)])), Ok(()));
    assert_eq!(app.on_tick(Ok(Vec::new())), Err(TickError::NoSource));
    assert_eq!(app.config().tick_rate(), 750);
    assert_eq!(app.config().buf_capacity(), 2);
    assert!(!app.config().graph());
    assert_eq!(app.config().graph_clearance(), 250);
    assert_eq!(app.power_bar().capacity(), 2);
}

#[test]
fn y_axis_of_a_new_app() {
    let app = app_with_capacity(3);
    let bounds = app.y_axis_bounds();
    assert_eq!((bounds.lower, bounds.middle, bounds.upper), (-1_000, 0, 1_000));
}

#[test]
fn y_axis_starts_at_zero_when_all_values_are_positive() {
    let mut app = app_with_capacity(3);
    assert_eq!(app.on_tick(Ok(vec![reading(ChargeState::Discharging, 6_000)])), Ok(()));
    assert_eq!(app.on_tick(Ok(vec![reading(ChargeState::Discharging, 9_000)])), Ok(()));
    let bounds = app.y_axis_bounds();
    assert_eq!((bounds.lower, bounds.middle, bounds.upper), (0, 5_000, 10_000));
}

#[test]
fn y_axis_reaches_below_negative_values() {
    let mut app = app_with_capacity(3);
    assert_eq!(app.on_tick(Ok(vec![reading(ChargeState::Charging, 5_000)])), Ok(()));
    let bounds = app.y_axis_bounds();
    assert_eq!((bounds.lower, bounds.middle, bounds.upper), (-6_000, -5_000, -4_000));
    assert_eq!(app.on_tick(Ok(vec![reading(ChargeState::Discharging, 2_001)])), Ok(()));
    let bounds = app.y_axis_bounds();
    assert_eq!((bounds.lower, bounds.middle, bounds.upper), (-6_000, -1_500, 3_001));
}

#[test]
fn y_axis_at_the_ends_of_the_range() {
    let mut app = App::new(Config::new(1, 2, true, u32::MAX).unwrap());
    assert_eq!(app.on_tick(Ok(vec![reading(ChargeState::Charging, u32::MAX)])), Ok(()));
    assert_eq!(app.on_tick(Ok(vec![reading(ChargeState::Full, u32::MAX)])), Ok(()));
    let bounds = app.y_axis_bounds();
    assert_eq!(bounds.lower, -2 * (u32::MAX as i64));
    assert_eq!(bounds.upper, 2 * (u32::MAX as i64));
    assert_eq!(bounds.middle, 0);
}
