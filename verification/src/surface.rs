//! The presentable surface of a window and its configuration.

use crate::geometry::Size;
use vstd::prelude::*;

verus! {

/// A colour format that the surface supports, named by its position in the
/// backend's list of supported formats, the preferred one first.
#[derive(Clone, Copy, Debug, PartialEq, Eq, Structural)]
pub struct ColorFormat {
    pub rank: u32,
}

/// A presentation mode that the surface supports, named by its position in
/// the backend's list of supported modes, the preferred one first.
#[derive(Clone, Copy, Debug, PartialEq, Eq, Structural)]
pub struct PresentMode {
    pub rank: u32,
}

/// What a surface is configured with.
#[derive(Clone, Copy, Debug, PartialEq, Eq, Structural)]
pub struct SurfaceConfig {
    pub size: Size,
    pub format: ColorFormat,
    pub present_mode: PresentMode,
}

impl SurfaceConfig {
    /// A surface accepts the configuration: it has no zero dimension.
    pub open spec fn is_valid(self) -> bool {
        self.size.is_presentable()
    }

    /// This configuration at another size, which is clamped.
    pub open spec fn resized(self, size: Size) -> SurfaceConfig {
        SurfaceConfig { size: size.clamped_spec(), ..self }
    }
}

/// The configuration a surface is first given: the requested size, clamped,
/// with the format and mode that the backend negotiated.
pub open spec fn initial_config(size: Size, format: ColorFormat, present_mode: PresentMode)
    -> SurfaceConfig {
    SurfaceConfig { size: size.clamped_spec(), format, present_mode }
}

/// One presentable texture of a surface, good for one render and one
/// present.
#[derive(Clone, Copy, Debug, PartialEq, Eq, Structural)]
pub struct Frame {
    pub extent: Size,
    pub format: ColorFormat,
}

/// The frame that a surface with the given configuration hands out.
pub open spec fn frame_of(config: SurfaceConfig) -> Frame {
    Frame { extent: config.size, format: config.format }
}

/// Why a surface handed out no frame.
#[derive(Clone, Copy, Debug, PartialEq, Eq, Structural)]
pub enum SurfaceError {
    /// The backend did not answer in time.
    Timeout,
    /// The surface no longer matches the window and must be configured anew.
    Outdated,
    /// The surface was lost and must be made again.
    Lost,
    /// No memory is left for a frame.
    OutOfMemory,
}

/// What the backend answered when asked for the next frame.
#[derive(Clone, Copy, Debug, PartialEq, Eq, Structural)]
pub enum AcquireStatus {
    Acquired,
    Failed(SurfaceError),
}

impl SurfaceError {
    pub open spec fn message_spec(self) -> Seq<char> {
        match self {
            SurfaceError::Timeout => "timed out waiting for the next frame"@,
            SurfaceError::Outdated => "the surface is outdated"@,
            SurfaceError::Lost => "the surface was lost"@,
            SurfaceError::OutOfMemory => "out of memory for the next frame"@,
        }
    }

    /// A line for the log.
    pub fn message(&self) -> (text: &'static str)
        ensures
            text@ == self.message_spec(),
    {
        match self {
            SurfaceError::Timeout => "timed out waiting for the next frame",
            SurfaceError::Outdated => "the surface is outdated",
            SurfaceError::Lost => "the surface was lost",
            SurfaceError::OutOfMemory => "out of memory for the next frame",
        }
    }
}

/// The surface of one window together with the configuration that was last
/// applied to it. The configuration never has a zero dimension.
#[derive(Clone, Copy, Debug, PartialEq, Eq)]
pub struct SurfaceBinding {
    config: SurfaceConfig,
}

impl View for SurfaceBinding {
    type V = SurfaceConfig;

    closed spec fn view(&self) -> SurfaceConfig {
        self.config
    }
}

impl SurfaceBinding {
    #[verifier::type_invariant]
    spec fn well_formed(self) -> bool {
        self.config.is_valid()
    }

    /// Binds a surface at `size`, clamped, with the negotiated format and
    /// presentation mode. The configuration returned by `config` is the one
    /// to apply to the surface at once.
    pub fn bind(size: Size, format: ColorFormat, present_mode: PresentMode) -> (binding:
        SurfaceBinding)
        ensures
            binding@ == initial_config(size, format, present_mode),
            binding@.is_valid(),
    {
        SurfaceBinding { config: SurfaceConfig { size: size.clamped(), format, present_mode } }
    }

    /// Takes a new size, clamped, and keeps format and presentation mode.
    /// The configuration returned by `config` afterwards is the one to apply
    /// before the next frame is acquired.
    pub fn reconfigure(&mut self, new_size: Size)
        ensures
            final(self)@ == old(self)@.resized(new_size),
            final(self)@.is_valid(),
    {
        let config = SurfaceConfig {
            size: new_size.clamped(),
            format: self.config.format,
            present_mode: self.config.present_mode,
        };
        *self = SurfaceBinding { config };
    }

    /// The configuration the surface has.
    pub fn config(&self) -> (config: SurfaceConfig)
        ensures
            config == self@,
            config.is_valid(),
    {
        proof {
            use_type_invariant(self);
        }
        self.config
    }

    /// Turns the backend's answer into a frame of this surface, or into the
    /// error to hand on: a frame if and only if one was acquired, and then of
    /// the size and format that the surface is configured with.
    pub fn acquire_frame(&self, status: AcquireStatus) -> (outcome: Result<Frame, SurfaceError>)
        ensures
            outcome == acquire_spec(self@, status),
            outcome.is_ok() <==> status == AcquireStatus::Acquired,
    {
        match status {
            AcquireStatus::Acquired => Ok(
                Frame { extent: self.config.size, format: self.config.format },
            ),
            AcquireStatus::Failed(error) => Err(error),
        }
    }
}

/// What acquiring a frame yields for a surface with the given configuration.
pub open spec fn acquire_spec(config: SurfaceConfig, status: AcquireStatus) -> Result<
    Frame,
    SurfaceError,
> {
    match status {
        AcquireStatus::Acquired => Ok(frame_of(config)),
        AcquireStatus::Failed(error) => Err(error),
    }
}

} // verus!
