//! What the adapter and the device are asked for, and how the presentable
//! surface is configured.

use vstd::prelude::*;
use crate::error::RenderError;
use crate::pipeline::TextureFormat;

verus! {

/// Which adapter to favour where several fit.
#[derive(Clone, Copy, Debug, PartialEq, Eq)]
pub enum PowerPreference {
    NoPreference,
    LowPower,
    HighPerformance,
}

/// The resource limits that a device is asked to support.
#[derive(Clone, Copy, Debug, PartialEq, Eq)]
pub enum LimitsProfile {
    Default,
    Downlevel,
    DownlevelWebgl2,
}

/// How finished frames reach the display.
#[derive(Clone, Copy, Debug, PartialEq, Eq)]
pub enum PresentMode {
    /// Frames wait in a queue for the display's refresh.
    Fifo,
    FifoRelaxed,
    Immediate,
    Mailbox,
}

/// How the surface is composed with what lies behind the window.
#[derive(Clone, Copy, Debug, PartialEq, Eq)]
pub enum CompositeAlphaMode {
    Auto,
    Opaque,
    PreMultiplied,
    PostMultiplied,
    Inherit,
}

/// What the surface's images are used for.
#[derive(Clone, Copy, Debug, PartialEq, Eq)]
pub struct TextureUsages {
    pub copy_src: bool,
    pub copy_dst: bool,
    pub texture_binding: bool,
    pub storage_binding: bool,
    pub render_attachment: bool,
}

/// The request for an adapter.
#[derive(Clone, Copy, Debug, PartialEq, Eq)]
pub struct AdapterRequest {
    pub power_preference: PowerPreference,
    pub force_fallback_adapter: bool,
    /// Whether the adapter must be able to present to the renderer's surface.
    pub compatible_with_surface: bool,
}

/// The request for a device and its queue.
#[derive(Clone, Copy, Debug, PartialEq, Eq)]
pub struct DeviceRequest {
    pub limits: LimitsProfile,
}

/// The configuration of the presentable surface.
#[derive(Clone, Copy, Debug, PartialEq, Eq)]
pub struct SurfaceConfig {
    pub usage: TextureUsages,
    pub format: TextureFormat,
    pub width: u32,
    pub height: u32,
    pub present_mode: PresentMode,
    pub desired_maximum_frame_latency: u32,
    pub alpha_mode: CompositeAlphaMode,
}

impl TextureUsages {
    /// Use as a render target and nothing else.
    pub open spec fn render_attachment_only() -> TextureUsages {
        TextureUsages {
            copy_src: false,
            copy_dst: false,
            texture_binding: false,
            storage_binding: false,
            render_attachment: true,
        }
    }
}

impl AdapterRequest {
    /// Any adapter that can present to the surface: no power preference and
    /// no software fallback.
    pub open spec fn standard() -> AdapterRequest {
        AdapterRequest {
            power_preference: PowerPreference::NoPreference,
            force_fallback_adapter: false,
            compatible_with_surface: true,
        }
    }

    /// Builds the request for an adapter.
    pub fn new() -> (r: AdapterRequest)
        ensures
            r == AdapterRequest::standard(),
    {
        AdapterRequest {
            power_preference: PowerPreference::NoPreference,
            force_fallback_adapter: false,
            compatible_with_surface: true,
        }
    }
}

impl AdapterRequest {
    /// What follows the request for an adapter: with an adapter, the request
    /// for its device; without one, the end, for there is nothing to fall
    /// back on.
    pub fn outcome(found: bool) -> (r: Result<DeviceRequest, RenderError>)
        ensures
            found ==> r == Ok::<DeviceRequest, RenderError>(DeviceRequest::standard()),
            !found ==> r == Err::<DeviceRequest, RenderError>(RenderError::NoAdapter),
    {
        if found {
            Ok(DeviceRequest::new())
        } else {
            Err(RenderError::NoAdapter)
        }
    }
}

impl DeviceRequest {
    /// What follows the request for a device: nothing more to ask for where
    /// it was granted, the end where it was not.
    pub fn outcome(granted: bool) -> (r: Result<(), RenderError>)
        ensures
            granted ==> r == Ok::<(), RenderError>(()),
            !granted ==> r == Err::<(), RenderError>(RenderError::NoDevice),
    {
        if granted {
            Ok(())
        } else {
            Err(RenderError::NoDevice)
        }
    }
}

impl DeviceRequest {
    /// A device held to the most modest limits, so that any adapter can give
    /// one.
    pub open spec fn standard() -> DeviceRequest {
        DeviceRequest { limits: LimitsProfile::DownlevelWebgl2 }
    }

    /// Builds the request for a device.
    pub fn new() -> (r: DeviceRequest)
        ensures
            r == DeviceRequest::standard(),
    {
        DeviceRequest { limits: LimitsProfile::DownlevelWebgl2 }
    }
}

impl SurfaceConfig {
    /// The surface's configuration at the given size: a render target in
    /// 8-bit BGRA with sRGB encoding, presented in step with the display's
    /// refresh, at most one frame ahead, composed as opaque.
    pub open spec fn sized(width: u32, height: u32) -> SurfaceConfig {
        SurfaceConfig {
            usage: TextureUsages::render_attachment_only(),
            format: TextureFormat::Bgra8UnormSrgb,
            width,
            height,
            present_mode: PresentMode::Fifo,
            desired_maximum_frame_latency: 1,
            alpha_mode: CompositeAlphaMode::Opaque,
        }
    }

    /// Whether the surface has no pixel to draw to.
    pub open spec fn is_empty(self) -> bool {
        self.width == 0 || self.height == 0
    }

    /// Builds the surface's configuration at the given size.
    pub fn new(width: u32, height: u32) -> (r: SurfaceConfig)
        ensures
            r == SurfaceConfig::sized(width, height),
    {
        SurfaceConfig {
            usage: TextureUsages {
                copy_src: false,
                copy_dst: false,
                texture_binding: false,
                storage_binding: false,
                render_attachment: true,
            },
            format: TextureFormat::Bgra8UnormSrgb,
            width,
            height,
            present_mode: PresentMode::Fifo,
            desired_maximum_frame_latency: 1,
            alpha_mode: CompositeAlphaMode::Opaque,
        }
    }
}

} // verus!
