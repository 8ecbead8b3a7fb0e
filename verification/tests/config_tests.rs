use fmcw_radar::config::{default_targets, merge_with_defaults, validate, Configuration, Target};
use fmcw_radar::errors::RadarError;

fn no_targets() -> Vec<Target> {
    Vec::new()
}

#[test]
fn default_configuration_is_valid() {
    let c = Configuration::default();
    assert_eq!(c.carrier_frequency, 77_000_000_000);
    assert_eq!(c.bandwidth, 1_600_000_000);
    assert_eq!(c.chirp_durations, vec![40_000_000, 20_000_000, 60_000_000]);
    assert_eq!(c.sampling_frequency, 50_000_000);
    assert_eq!(c.sampling_duration, 40_000_000);
    assert_eq!(validate(&c, &no_targets()), Ok(()));
}

#[test]
fn default_target_list() {
    let ts = default_targets();
    assert_eq!(ts.len(), 3);
    assert_eq!((ts[0].range, ts[0].velocity, ts[0].enabled), (10_000, 0, true));
    assert_eq!((ts[1].range, ts[1].velocity, ts[1].enabled), (30_000, 20_000, false));
    assert_eq!((ts[2].range, ts[2].velocity, ts[2].enabled), (40_000, -10_000, false));
    assert_eq!(validate(&Configuration::default(), &ts), Ok(()));
}

#[test]
fn nonpositive_fields_rejected() {
    let mut c = Configuration::default();
    c.bandwidth = 0;
    assert_eq!(validate(&c, &no_targets()), Err(RadarError::InvalidConfig));
    let mut c = Configuration::default();
    c.carrier_frequency = -1;
    assert_eq!(validate(&c, &no_targets()), Err(RadarError::InvalidConfig));
    let mut c = Configuration::default();
    c.sampling_frequency = 0;
    assert_eq!(validate(&c, &no_targets()), Err(RadarError::InvalidConfig));
    let mut c = Configuration::default();
    c.sampling_duration = 0;
    assert_eq!(validate(&c, &no_targets()), Err(RadarError::InvalidConfig));
}

#[test]
fn empty_or_nonpositive_chirps_rejected() {
    let mut c = Configuration::default();
    c.chirp_durations = vec![];
    assert_eq!(validate(&c, &no_targets()), Err(RadarError::InvalidConfig));
    let mut c = Configuration::default();
    c.chirp_durations = vec![40_000_000, -1];
    assert_eq!(validate(&c, &no_targets()), Err(RadarError::InvalidConfig));
}

#[test]
fn tiny_sample_count_rejected() {
    // One sample: 20 ns at 50 MHz rounds to 1, below the minimum of 2.
    let mut c = Configuration::default();
    c.sampling_duration = 20_000;
    assert_eq!(validate(&c, &no_targets()), Err(RadarError::InvalidConfig));
    // Two samples pass.
    c.sampling_duration = 40_000;
    assert_eq!(validate(&c, &no_targets()), Ok(()));
}

#[test]
fn light_speed_velocity_rejected() {
    let c = Configuration::default();
    let t = Target {
        range: 0,
        velocity: 299_999_000_000,
        enabled: true,
        color: (255, 255, 255),
    };
    assert_eq!(validate(&c, &vec![t]), Err(RadarError::NumericDegeneracy));
    let t2 = Target { velocity: -299_999_000_000, ..t };
    assert_eq!(validate(&c, &vec![t2]), Err(RadarError::NumericDegeneracy));
    let t3 = Target { velocity: -299_998_999_999, ..t };
    assert_eq!(validate(&c, &vec![t3]), Ok(()));
}

#[test]
fn merge_uses_defaults_for_missing_fields() {
    let c = merge_with_defaults(None, Some(2_000_000_000), None, None, Some(10_000_000));
    assert_eq!(c.carrier_frequency, 77_000_000_000);
    assert_eq!(c.bandwidth, 2_000_000_000);
    assert_eq!(c.chirp_durations, vec![40_000_000, 20_000_000, 60_000_000]);
    assert_eq!(c.sampling_frequency, 50_000_000);
    assert_eq!(c.sampling_duration, 10_000_000);
}
