//! The graphics context: which adapter and device the application asks for,
//! and what it does when the environment has none.

use crate::backend::{at_resolution, default_limits};
use vstd::prelude::*;

verus! {

/// How the backend should choose between several adapters.
#[derive(Clone, Copy, Debug, PartialEq, Eq, Structural)]
pub enum PowerPreference {
    /// No preference: the backend picks.
    Unspecified,
    LowPower,
    HighPerformance,
}

/// The options an adapter is requested with.
#[derive(Clone, Copy, Debug, PartialEq, Eq, Structural)]
pub struct AdapterRequest {
    pub power_preference: PowerPreference,
    /// Whether a software fallback adapter is forced.
    pub force_fallback_adapter: bool,
    /// Whether the adapter must be able to present to a surface that exists
    /// already.
    pub surface_bound: bool,
}

/// Where the limits that a device is requested with come from.
#[derive(Clone, Copy, Debug, PartialEq, Eq, Structural)]
pub enum LimitsPolicy {
    /// The backend's default limits.
    Defaults,
    /// The default limits, with the texture resolution limits of the adapter
    /// that was selected.
    DefaultsAtAdapterResolution,
}

/// The options a logical device is requested with.
#[derive(Clone, Copy, Debug, PartialEq, Eq, Structural)]
pub struct DeviceRequest {
    /// Whether any feature beyond the default set is required.
    pub extra_features: bool,
    pub limits: LimitsPolicy,
}

/// The environment cannot run the application at all.
#[derive(Clone, Copy, Debug, PartialEq, Eq, Structural)]
pub enum EnvironmentError {
    /// No adapter satisfies the request.
    NoAdapter,
    /// The adapter grants no device that satisfies the request.
    NoDevice,
}

/// The request every context selects its adapter with: no power preference,
/// no forced fallback, no surface to be compatible with.
pub open spec fn standard_adapter_request() -> AdapterRequest {
    AdapterRequest {
        power_preference: PowerPreference::Unspecified,
        force_fallback_adapter: false,
        surface_bound: false,
    }
}

/// The request every context opens its device with: the default feature set,
/// and default limits scaled to the adapter.
pub open spec fn standard_device_request() -> DeviceRequest {
    DeviceRequest { extra_features: false, limits: LimitsPolicy::DefaultsAtAdapterResolution }
}

/// What the context turns out to be, given whether the backend found an
/// adapter and whether that adapter granted a device.
pub open spec fn create_spec(adapter_found: bool, device_granted: bool) -> Result<
    GraphicsContext,
    EnvironmentError,
> {
    if !adapter_found {
        Err(EnvironmentError::NoAdapter)
    } else if !device_granted {
        Err(EnvironmentError::NoDevice)
    } else {
        Ok(
            GraphicsContext {
                adapter: standard_adapter_request(),
                device: standard_device_request(),
            },
        )
    }
}

/// The limits that a device is requested with under a policy, on an adapter
/// with the given limits.
pub open spec fn device_limits_spec(policy: LimitsPolicy, adapter: wgpu::Limits) -> wgpu::Limits {
    match policy {
        LimitsPolicy::Defaults => default_limits(),
        LimitsPolicy::DefaultsAtAdapterResolution => at_resolution(default_limits(), adapter),
    }
}

/// Works out the limits to request a device with. Under the policy of every
/// context the result has the adapter's texture dimension limits, so that a
/// surface as large as the display can be had, and the default in every
/// other place.
pub fn device_limits(policy: LimitsPolicy, adapter: wgpu::Limits) -> (limits: wgpu::Limits)
    ensures
        limits == device_limits_spec(policy, adapter),
{
    match policy {
        LimitsPolicy::Defaults => wgpu::Limits::default(),
        LimitsPolicy::DefaultsAtAdapterResolution => wgpu::Limits::default().using_resolution(
            adapter,
        ),
    }
}

impl EnvironmentError {
    /// The text that startup fails with.
    pub open spec fn message_spec(self) -> Seq<char> {
        match self {
            EnvironmentError::NoAdapter => "found no valid adaptor"@,
            EnvironmentError::NoDevice => "found no valid device"@,
        }
    }

    pub fn message(&self) -> (text: &'static str)
        ensures
            text@ == self.message_spec(),
    {
        match self {
            EnvironmentError::NoAdapter => "found no valid adaptor",
            EnvironmentError::NoDevice => "found no valid device",
        }
    }
}

/// A record of the adapter and the device that the process runs on. Both are
/// fixed when the context is created: there is no way to change either short
/// of creating another context.
#[derive(Clone, Copy, Debug, PartialEq, Eq, Structural)]
pub struct GraphicsContext {
    pub adapter: AdapterRequest,
    pub device: DeviceRequest,
}

impl GraphicsContext {
    /// The options to select the adapter with.
    pub fn adapter_request() -> (request: AdapterRequest)
        ensures
            request == standard_adapter_request(),
    {
        AdapterRequest {
            power_preference: PowerPreference::Unspecified,
            force_fallback_adapter: false,
            surface_bound: false,
        }
    }

    /// The options to open the device with, once an adapter is selected.
    pub fn device_request() -> (request: DeviceRequest)
        ensures
            request == standard_device_request(),
    {
        DeviceRequest { extra_features: false, limits: LimitsPolicy::DefaultsAtAdapterResolution }
    }

    /// Concludes startup. `adapter_found` tells whether the backend selected
    /// an adapter for `adapter_request()`, `device_granted` whether that
    /// adapter granted a device for `device_request()`; the second is not
    /// looked at where there is no adapter. A missing adapter or device is
    /// final: nothing is tried again.
    pub fn create(adapter_found: bool, device_granted: bool) -> (outcome: Result<
        GraphicsContext,
        EnvironmentError,
    >)
        ensures
            outcome == create_spec(adapter_found, device_granted),
            outcome.is_ok() <==> adapter_found && device_granted,
    {
        if !adapter_found {
            Err(EnvironmentError::NoAdapter)
        } else if !device_granted {
            Err(EnvironmentError::NoDevice)
        } else {
            Ok(
                GraphicsContext {
                    adapter: GraphicsContext::adapter_request(),
                    device: GraphicsContext::device_request(),
                },
            )
        }
    }
}

} // verus!
