//! What the platform tells the controller, and what the controller asks of
//! the platform in return.

use crate::geometry::{Size, WindowMetrics};
use crate::pipeline::{PipelineDescriptor, RenderPass};
use crate::surface::{
    AcquireStatus, ColorFormat, Frame, PresentMode, SurfaceConfig, SurfaceError,
};
use vstd::prelude::*;

verus! {

/// What the platform found when it opened the window and made a surface for
/// it.
#[derive(Clone, Copy, Debug, PartialEq, Eq)]
pub struct WindowReport {
    pub metrics: WindowMetrics,
    /// The colour format of the surface's default configuration.
    pub format: ColorFormat,
    /// The presentation mode of the surface's default configuration.
    pub present_mode: PresentMode,
}

/// An event of the window's life, or the platform's answer to a command.
#[derive(Clone, Copy, Debug, PartialEq, Eq)]
pub enum Event {
    /// The application was resumed or activated.
    Activated,
    /// The answer to `Command::OpenWindow`.
    WindowReady(WindowReport),
    /// The window has a new size.
    Resized(Size),
    /// The window wants its contents drawn.
    RedrawRequested,
    /// The answer to `Command::AcquireFrame`.
    FrameAnswered(AcquireStatus),
    /// The user asked for the window to be closed.
    CloseRequested,
}

impl Event {
    /// The error that the event brings, if it brings one: a frame that could
    /// not be acquired.
    pub open spec fn failure(self) -> Option<SurfaceError> {
        match self {
            Event::FrameAnswered(AcquireStatus::Failed(error)) => Some(error),
            _ => None,
        }
    }
}

/// What was being done when a resource turned out to be missing.
#[derive(Clone, Copy, Debug, PartialEq, Eq, Structural)]
pub enum Operation {
    Resize,
    Redraw,
}

/// A resource that exists only while the controller is active.
#[derive(Clone, Copy, Debug, PartialEq, Eq, Structural)]
pub enum Resource {
    Window,
    Surface,
    Pipeline,
}

/// An event asked for work on a resource that does not exist. The platform
/// broke its word; the application ends.
#[derive(Clone, Copy, Debug, PartialEq, Eq, Structural)]
pub struct Violation {
    pub operation: Operation,
    pub missing: Resource,
}

impl Violation {
    /// The warning that is logged for the violation.
    pub open spec fn message_spec(self) -> Seq<char> {
        match (self.operation, self.missing) {
            (Operation::Redraw, Resource::Window) => "redraw requested on closed window"@,
            (Operation::Redraw, Resource::Surface) => "redraw requested on no surface"@,
            (Operation::Redraw, Resource::Pipeline) => "redraw requested with no pipeline"@,
            (Operation::Resize, Resource::Window) => "resize requested on closed window"@,
            (Operation::Resize, Resource::Surface) => "resize requested on no surface"@,
            (Operation::Resize, Resource::Pipeline) => "resize requested with no pipeline"@,
        }
    }

    pub fn message(&self) -> (text: &'static str)
        ensures
            text@ == self.message_spec(),
    {
        match self.operation {
            Operation::Redraw => match self.missing {
                Resource::Window => "redraw requested on closed window",
                Resource::Surface => "redraw requested on no surface",
                Resource::Pipeline => "redraw requested with no pipeline",
            },
            Operation::Resize => match self.missing {
                Resource::Window => "resize requested on closed window",
                Resource::Surface => "resize requested on no surface",
                Resource::Pipeline => "resize requested with no pipeline",
            },
        }
    }
}

/// One thing for the platform to do. The commands of one event are carried
/// out in order; where a command asks for an answer, the answer is the next
/// event.
#[derive(Clone, Copy, Debug, PartialEq, Eq, Structural)]
pub enum Command {
    /// Open the window, make a surface for it, and answer with
    /// `Event::WindowReady`.
    OpenWindow,
    /// Apply this first configuration to the new surface.
    BindSurface(SurfaceConfig),
    /// Compile the shader program and build the pipeline.
    BuildPipeline(PipelineDescriptor),
    /// Apply this configuration to the surface.
    Configure(SurfaceConfig),
    /// Ask the window for a redraw event.
    RequestRedraw,
    /// Try once to acquire the next frame of the surface, which has this
    /// configuration, and answer with `Event::FrameAnswered`.
    AcquireFrame(SurfaceConfig),
    /// Record one command buffer that holds this pass on the acquired frame.
    Render(RenderPass),
    /// Submit the command buffer to the queue.
    Submit,
    /// Present the frame.
    Present(Frame),
    /// Log a warning.
    Warn(Violation),
    /// Let go of the window.
    ReleaseWindow,
    /// Tell the event loop to end.
    ExitLoop,
}

impl Command {
    /// True of the commands that call the graphics backend. Opening the
    /// window is one of them: it makes the surface.
    pub open spec fn is_gpu_call(self) -> bool {
        match self {
            Command::OpenWindow => true,
            Command::BindSurface(_) => true,
            Command::BuildPipeline(_) => true,
            Command::Configure(_) => true,
            Command::AcquireFrame(_) => true,
            Command::Render(_) => true,
            Command::Submit => true,
            Command::Present(_) => true,
            Command::RequestRedraw => false,
            Command::Warn(_) => false,
            Command::ReleaseWindow => false,
            Command::ExitLoop => false,
        }
    }

    /// Tells whether carrying out the command calls the graphics backend.
    pub fn touches_gpu(&self) -> (yes: bool)
        ensures
            yes == self.is_gpu_call(),
    {
        match self {
            Command::OpenWindow => true,
            Command::BindSurface(_) => true,
            Command::BuildPipeline(_) => true,
            Command::Configure(_) => true,
            Command::AcquireFrame(_) => true,
            Command::Render(_) => true,
            Command::Submit => true,
            Command::Present(_) => true,
            Command::RequestRedraw => false,
            Command::Warn(_) => false,
            Command::ReleaseWindow => false,
            Command::ExitLoop => false,
        }
    }

    /// The configuration that the command applies to the surface, if it
    /// applies one.
    pub open spec fn applied_config(self) -> Option<SurfaceConfig> {
        match self {
            Command::BindSurface(config) => Some(config),
            Command::Configure(config) => Some(config),
            _ => None,
        }
    }
}

/// How many commands of the sequence are the given one.
pub open spec fn occurrences(commands: Seq<Command>, command: Command) -> nat
    decreases commands.len(),
{
    if commands.len() == 0 {
        0
    } else {
        occurrences(commands.drop_last(), command) + if commands.last() == command {
            1nat
        } else {
            0nat
        }
    }
}

/// How many commands of the sequence present a frame.
pub open spec fn presents(commands: Seq<Command>) -> nat
    decreases commands.len(),
{
    if commands.len() == 0 {
        0
    } else {
        presents(commands.drop_last()) + if commands.last() is Present {
            1nat
        } else {
            0nat
        }
    }
}

/// The configuration that the surface has after the commands: the one that
/// the last of them to apply any applied.
pub open spec fn last_applied(commands: Seq<Command>) -> Option<SurfaceConfig>
    decreases commands.len(),
{
    if commands.len() == 0 {
        None
    } else {
        match commands.last().applied_config() {
            Some(config) => Some(config),
            None => last_applied(commands.drop_last()),
        }
    }
}

/// True when no command of the sequence calls the graphics backend.
pub open spec fn gpu_free(commands: Seq<Command>) -> bool {
    forall|i: int| 0 <= i < commands.len() ==> !(#[trigger] commands[i]).is_gpu_call()
}

/// Counts the commands that are the given one.
pub fn count(commands: &Vec<Command>, command: Command) -> (n: usize)
    ensures
        n == occurrences(commands@, command),
{
    let mut n: usize = 0;
    let mut i: usize = 0;
    while i < commands.len()
        invariant
            i <= commands.len(),
            n <= i,
            n == occurrences(commands@.take(i as int), command),
        decreases commands.len() - i,
    {
        proof {
            let next = commands@.take(i + 1);
            assert(next.drop_last() =~= commands@.take(i as int));
            assert(next.last() == commands@[i as int]);
        }
        if commands[i] == command {
            n = n + 1;
        }
        i = i + 1;
    }
    proof {
        assert(commands@.take(i as int) =~= commands@);
    }
    n
}

} // verus!
