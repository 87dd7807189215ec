use visualizrs::{
    choose_config, fetch_devices, resolve_device, ConfigError, ConfigRange, DeviceChoice,
    DeviceProbe, SampleFormat, StreamConfig,
};

fn range(channels: u16, min: u32, max: u32) -> ConfigRange {
    ConfigRange {
        channels,
        min_sample_rate: min,
        max_sample_rate: max,
        sample_format: SampleFormat::F32,
    }
}

#[test]
fn out_of_range_index_falls_back_to_first_device() {
    assert_eq!(resolve_device(Some(9999), 3), Some(DeviceChoice::Enumerated(0)));
    assert_eq!(resolve_device(Some(9999), 3).unwrap().index(), 0);
}

#[test]
fn in_range_index_is_kept() {
    assert_eq!(resolve_device(Some(2), 3), Some(DeviceChoice::Enumerated(2)));
    assert_eq!(resolve_device(Some(0), 1), Some(DeviceChoice::Enumerated(0)));
}

#[test]
fn no_request_means_host_default() {
    assert_eq!(resolve_device(None, 3), Some(DeviceChoice::HostDefault));
    assert_eq!(resolve_device(None, 0), Some(DeviceChoice::HostDefault));
    assert_eq!(DeviceChoice::HostDefault.index(), 0);
}

#[test]
fn no_devices_cannot_resolve_an_index() {
    assert_eq!(resolve_device(Some(0), 0), None);
}

#[test]
fn default_config_is_first_range_at_max_rate() {
    let supported = vec![range(2, 8000, 96000), range(1, 8000, 48000)];
    assert_eq!(
        choose_config(None, &supported),
        Ok(StreamConfig { channels: 2, sample_rate: 96000 })
    );
}

#[test]
fn requested_config_wins() {
    let supported = vec![range(2, 8000, 96000)];
    let wanted = StreamConfig { channels: 1, sample_rate: 44100 };
    assert_eq!(choose_config(Some(wanted), &supported), Ok(wanted));
}

#[test]
fn config_errors() {
    assert_eq!(choose_config(None, &Vec::new()), Err(ConfigError::NoSupportedConfig));
    assert_eq!(choose_config(None, &vec![range(0, 8000, 48000)]), Err(ConfigError::Unusable));
    assert_eq!(choose_config(None, &vec![range(2, 0, 0)]), Err(ConfigError::Unusable));
    let silent = StreamConfig { channels: 2, sample_rate: 0 };
    assert_eq!(choose_config(Some(silent), &Vec::new()), Err(ConfigError::Unusable));
}

#[test]
fn failed_devices_are_skipped_and_indices_kept() {
    let probes = vec![
        DeviceProbe {
            name: Some(String::from("Built-in")),
            supported_configurations: Some(vec![range(2, 44100, 48000)]),
        },
        DeviceProbe { name: None, supported_configurations: Some(vec![range(1, 8000, 8000)]) },
        DeviceProbe { name: Some(String::from("Broken")), supported_configurations: None },
        DeviceProbe {
            name: Some(String::from("USB")),
            supported_configurations: Some(vec![range(1, 8000, 48000), range(2, 8000, 96000)]),
        },
    ];
    let devices = fetch_devices(&probes);
    assert_eq!(devices.len(), 2);
    assert_eq!(devices[0].index, 0);
    assert_eq!(devices[0].name, "Built-in");
    assert_eq!(devices[0].supported_configurations, vec![range(2, 44100, 48000)]);
    assert_eq!(devices[1].index, 3);
    assert_eq!(devices[1].name, "USB");
    assert_eq!(devices[1].supported_configurations.len(), 2);
}

#[test]
fn no_probes_no_devices() {
    assert!(fetch_devices(&Vec::new()).is_empty());
}
