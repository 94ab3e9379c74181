use frame_lifecycle::negotiation::{
    adapter_options, device_request, AdapterOptions, DeviceRequest, FeatureSet, LimitsPreset,
    MemoryHints,
    PowerPreference,
};

#[test]
fn adapter_must_present_to_the_surface() {
    let options: AdapterOptions = adapter_options();
    assert!(options.compatible_surface);
    assert!(!options.force_fallback_adapter);
    assert_eq!(options.power_preference, PowerPreference::Unspecified);
}

#[test]
fn device_asks_for_the_lowest_common_limits() {
    let request: DeviceRequest = device_request();
    assert_eq!(request.required_features, FeatureSet::Empty);
    assert_eq!(request.limits, LimitsPreset::DownlevelWebGl2);
    assert!(request.adapter_resolution);
    assert_eq!(request.memory_hints, MemoryHints::MemoryUsage);
}

#[test]
fn requests_are_the_same_each_time() {
    assert_eq!(adapter_options(), adapter_options());
    assert_eq!(device_request(), device_request());
}
