//! Negotiation of the GPU context: what is asked of the instance for an
//! adapter, and of the adapter for a device.
//!
//! Both requests are made once. There is no second adapter to fall back to
//! and no second attempt at a device.

use vstd::prelude::*;

verus! {

/// Which adapter to prefer where there are several.
#[derive(Clone, Copy, Debug, PartialEq, Eq, Structural)]
pub enum PowerPreference {
    /// Power usage is not considered.
    Unspecified,
    /// The adapter that uses the least power.
    LowPower,
    /// The adapter with the highest performance.
    HighPerformance,
}

/// What is asked of the instance when it looks for an adapter.
#[derive(Clone, Copy, Debug, PartialEq, Eq, Structural)]
pub struct AdapterOptions {
    pub power_preference: PowerPreference,
    /// Whether only a software adapter will do.
    pub force_fallback_adapter: bool,
    /// Whether the adapter must be able to present to the target surface.
    pub compatible_surface: bool,
}

/// The optional features to require of a device.
#[derive(Clone, Copy, Debug, PartialEq, Eq, Structural)]
pub enum FeatureSet {
    /// None at all.
    Empty,
    /// All that the adapter has.
    AllOfAdapter,
}

/// A set of limits to ask a device for.
#[derive(Clone, Copy, Debug, PartialEq, Eq, Structural)]
pub enum LimitsPreset {
    /// The limits every desktop adapter meets.
    Standard,
    /// The limits every downlevel adapter meets.
    Downlevel,
    /// The limits a WebGL2 context meets: the lowest common ground.
    DownlevelWebGl2,
}

/// What the device should favor where speed and memory pull apart.
#[derive(Clone, Copy, Debug, PartialEq, Eq, Structural)]
pub enum MemoryHints {
    Performance,
    MemoryUsage,
}

/// What is asked of the adapter when a device is opened.
#[derive(Clone, Copy, Debug, PartialEq, Eq, Structural)]
pub struct DeviceRequest {
    /// The optional features the device must have.
    pub required_features: FeatureSet,
    /// The limits to start from.
    pub limits: LimitsPreset,
    /// Whether the texture size limits are raised to what the adapter
    /// itself supports.
    pub adapter_resolution: bool,
    pub memory_hints: MemoryHints,
}

/// The one adapter request: no power preference, no forced fallback, and an
/// adapter that can present to the target surface.
pub open spec fn wanted_adapter() -> AdapterOptions {
    AdapterOptions {
        power_preference: PowerPreference::Unspecified,
        force_fallback_adapter: false,
        compatible_surface: true,
    }
}

/// The one device request: no optional feature, the lowest common limits
/// with the adapter's own texture sizes, and memory favored over speed.
pub open spec fn wanted_device() -> DeviceRequest {
    DeviceRequest {
        required_features: FeatureSet::Empty,
        limits: LimitsPreset::DownlevelWebGl2,
        adapter_resolution: true,
        memory_hints: MemoryHints::MemoryUsage,
    }
}

/// What to ask the instance for.
pub fn adapter_options() -> (options: AdapterOptions)
    ensures
        options == wanted_adapter(),
{
    AdapterOptions {
        power_preference: PowerPreference::Unspecified,
        force_fallback_adapter: false,
        compatible_surface: true,
    }
}

/// What to ask the adapter for.
pub fn device_request() -> (request: DeviceRequest)
    ensures
        request == wanted_device(),
{
    DeviceRequest {
        required_features: FeatureSet::Empty,
        limits: LimitsPreset::DownlevelWebGl2,
        adapter_resolution: true,
        memory_hints: MemoryHints::MemoryUsage,
    }
}

} // verus!
