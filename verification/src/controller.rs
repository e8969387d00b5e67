//! The controller: the state of the window's resources, and the commands
//! that each event gives rise to.

use crate::command::{Command, Event, Operation, Resource, Violation, WindowReport};
use crate::context::GraphicsContext;
use crate::geometry::{Size, SizeSource};
use crate::pipeline::{pipeline_for, triangle_pass, PipelineDescriptor, PipelineResources, RenderPass};
use crate::surface::{
    frame_of, initial_config, AcquireStatus, SurfaceBinding, SurfaceConfig, SurfaceError,
};
use vstd::prelude::*;

verus! {

/// What exists while the controller is active.
#[derive(Clone, Copy, Debug, PartialEq, Eq, Structural)]
pub struct Resources {
    /// The configuration that the surface has.
    pub surface: SurfaceConfig,
    /// The pipeline that draws to the surface.
    pub pipeline: PipelineDescriptor,
}

/// Where the controller stands in the life of its window.
#[derive(Clone, Copy, Debug, PartialEq, Eq, Structural)]
pub enum Phase {
    /// Nothing exists yet.
    Uninitialized,
    /// The window was asked for and the platform has not answered yet.
    Activating,
    /// Window, surface and pipeline exist.
    Active(Resources),
    /// The window is gone and the event loop was told to end. No phase
    /// follows this one, and no event brings the resources back.
    Closed,
}

impl Phase {
    /// While active, the surface has no zero dimension and the pipeline is
    /// the one for the surface's format.
    pub open spec fn wf(self) -> bool {
        match self {
            Phase::Active(resources) => {
                &&& resources.surface.is_valid()
                &&& resources.pipeline == pipeline_for(resources.surface.format)
            },
            _ => true,
        }
    }
}

/// The commands that end the application over a violation.
pub open spec fn warn_and_exit(operation: Operation, missing: Resource) -> Seq<Command> {
    seq![Command::Warn(Violation { operation, missing }), Command::ExitLoop]
}

/// The resources that a window with the given report starts with.
pub open spec fn first_resources(source: SizeSource, report: WindowReport) -> Resources {
    let surface = initial_config(
        report.metrics.authoritative_spec(source),
        report.format,
        report.present_mode,
    );
    Resources { surface, pipeline: pipeline_for(surface.format) }
}

/// The commands that draw on an acquired frame: record the pass, submit
/// once, present once.
pub open spec fn draw_commands(surface: SurfaceConfig) -> Seq<Command> {
    seq![
        Command::Render(triangle_pass()),
        Command::Submit,
        Command::Present(frame_of(surface)),
    ]
}

/// Activation asks for the window once. While the window is underway, or
/// once the resources exist, or after the end, it changes nothing.
pub open spec fn on_activated(phase: Phase) -> (Phase, Seq<Command>) {
    match phase {
        Phase::Uninitialized => (Phase::Activating, seq![Command::OpenWindow]),
        _ => (phase, Seq::empty()),
    }
}

/// The window that was asked for is there: the surface is bound at the
/// authoritative size and the pipeline is built for its format. A report
/// that was not asked for changes nothing.
pub open spec fn on_window_ready(source: SizeSource, phase: Phase, report: WindowReport) -> (
    Phase,
    Seq<Command>,
) {
    match phase {
        Phase::Activating => {
            let resources = first_resources(source, report);
            (
                Phase::Active(resources),
                seq![
                    Command::BindSurface(resources.surface),
                    Command::BuildPipeline(resources.pipeline),
                ],
            )
        },
        _ => (phase, Seq::empty()),
    }
}

/// A new size is clamped, applied to the surface, and followed by a request
/// for a redraw; no frame is drawn. Before the resources exist it is a
/// violation.
pub open spec fn on_resized(phase: Phase, size: Size) -> (Phase, Seq<Command>) {
    match phase {
        Phase::Active(resources) => {
            let surface = resources.surface.resized(size);
            (
                Phase::Active(Resources { surface, pipeline: resources.pipeline }),
                seq![Command::Configure(surface), Command::RequestRedraw],
            )
        },
        Phase::Closed => (phase, Seq::empty()),
        _ => (Phase::Closed, warn_and_exit(Operation::Resize, Resource::Surface)),
    }
}

/// A redraw asks the surface for one frame, once. Without the resources,
/// before they exist or after they are gone, it is a violation: a warning,
/// and the end.
pub open spec fn on_redraw(phase: Phase) -> (Phase, Seq<Command>) {
    match phase {
        Phase::Active(resources) => (phase, seq![Command::AcquireFrame(resources.surface)]),
        _ => (Phase::Closed, warn_and_exit(Operation::Redraw, Resource::Window)),
    }
}

/// The surface answered. A frame that was acquired while the resources exist
/// is drawn on, submitted and presented. Any other answer gives rise to no
/// command; the phase stays as it is in every case.
pub open spec fn on_frame_answered(phase: Phase, status: AcquireStatus) -> (Phase, Seq<Command>) {
    match (phase, status) {
        (Phase::Active(resources), AcquireStatus::Acquired) => (
            phase,
            draw_commands(resources.surface),
        ),
        _ => (phase, Seq::empty()),
    }
}

/// Closing lets go of the window first and ends the event loop after that.
pub open spec fn on_close(phase: Phase) -> (Phase, Seq<Command>) {
    match phase {
        Phase::Closed => (phase, Seq::empty()),
        _ => (Phase::Closed, seq![Command::ReleaseWindow, Command::ExitLoop]),
    }
}

/// The phase after an event, and the commands the event gives rise to.
pub open spec fn step_spec(source: SizeSource, phase: Phase, event: Event) -> (
    Phase,
    Seq<Command>,
) {
    match event {
        Event::Activated => on_activated(phase),
        Event::WindowReady(report) => on_window_ready(source, phase, report),
        Event::Resized(size) => on_resized(phase, size),
        Event::RedrawRequested => on_redraw(phase),
        Event::FrameAnswered(status) => on_frame_answered(phase, status),
        Event::CloseRequested => on_close(phase),
    }
}

/// The errors that the events bring, in their order.
pub open spec fn failures_spec(events: Seq<Event>) -> Seq<SurfaceError>
    decreases events.len(),
{
    if events.len() == 0 {
        Seq::empty()
    } else {
        match events.last().failure() {
            Some(error) => failures_spec(events.drop_last()).push(error),
            None => failures_spec(events.drop_last()),
        }
    }
}

/// The phase after a sequence of events, and all their commands in order.
pub open spec fn run_spec(source: SizeSource, phase: Phase, events: Seq<Event>) -> (
    Phase,
    Seq<Command>,
)
    decreases events.len(),
{
    if events.len() == 0 {
        (phase, Seq::empty())
    } else {
        let (reached, earlier) = run_spec(source, phase, events.drop_last());
        let (next, later) = step_spec(source, reached, events.last());
        (next, earlier + later)
    }
}

enum Stage {
    Uninitialized,
    Activating,
    Active { surface: SurfaceBinding, pipeline: PipelineResources },
    Closed,
}

/// Sequences the events of one window into commands for the platform. It
/// holds the graphics context from the start and the window's resources
/// while it is active.
pub struct Controller {
    context: GraphicsContext,
    title: String,
    source: SizeSource,
    stage: Stage,
}

impl Controller {
    #[verifier::type_invariant]
    spec fn well_formed(self) -> bool {
        match self.stage {
            Stage::Active { surface, pipeline } => {
                &&& surface@.is_valid()
                &&& pipeline@ == pipeline_for(surface@.format)
            },
            _ => true,
        }
    }

    /// The phase the controller is in.
    pub closed spec fn phase_spec(self) -> Phase {
        match self.stage {
            Stage::Uninitialized => Phase::Uninitialized,
            Stage::Activating => Phase::Activating,
            Stage::Active { surface, pipeline } => Phase::Active(
                Resources { surface: surface@, pipeline: pipeline@ },
            ),
            Stage::Closed => Phase::Closed,
        }
    }

    /// Where the controller takes the first size of its window from.
    pub closed spec fn source_spec(self) -> SizeSource {
        self.source
    }

    /// The title of the window.
    pub closed spec fn title_spec(self) -> Seq<char> {
        self.title@
    }

    /// The graphics context the controller was made with.
    pub closed spec fn context_spec(self) -> GraphicsContext {
        self.context
    }

    /// True when an event leaves everything but the phase as it was.
    pub open spec fn same_setup(self, other: Controller) -> bool {
        &&& self.source_spec() == other.source_spec()
        &&& self.title_spec() == other.title_spec()
        &&& self.context_spec() == other.context_spec()
    }

    /// A controller for one window, with nothing created yet.
    pub fn new(context: GraphicsContext, title: String, source: SizeSource) -> (controller:
        Controller)
        ensures
            controller.phase_spec() == Phase::Uninitialized,
            controller.source_spec() == source,
            controller.title_spec() == title@,
            controller.context_spec() == context,
    {
        Controller { context, title, source, stage: Stage::Uninitialized }
    }

    pub fn phase(&self) -> (phase: Phase)
        ensures
            phase == self.phase_spec(),
            phase.wf(),
    {
        proof {
            use_type_invariant(self);
        }
        match self.stage {
            Stage::Uninitialized => Phase::Uninitialized,
            Stage::Activating => Phase::Activating,
            Stage::Active { surface, pipeline } => Phase::Active(
                Resources { surface: surface.config(), pipeline: pipeline.descriptor() },
            ),
            Stage::Closed => Phase::Closed,
        }
    }

    pub fn size_source(&self) -> (source: SizeSource)
        ensures
            source == self.source_spec(),
    {
        self.source
    }

    pub fn title(&self) -> (title: &String)
        ensures
            title@ == self.title_spec(),
    {
        &self.title
    }

    pub fn context(&self) -> (context: GraphicsContext)
        ensures
            context == self.context_spec(),
    {
        self.context
    }

    /// The surface, while the controller is active.
    pub fn surface(&self) -> (surface: Option<SurfaceBinding>)
        ensures
            match self.phase_spec() {
                Phase::Active(resources) => surface.is_some() && surface.unwrap()@
                    == resources.surface,
                _ => surface.is_none(),
            },
    {
        match self.stage {
            Stage::Active { surface, pipeline: _ } => Some(surface),
            _ => None,
        }
    }

    /// The pipeline, while the controller is active.
    pub fn pipeline(&self) -> (pipeline: Option<PipelineResources>)
        ensures
            match self.phase_spec() {
                Phase::Active(resources) => pipeline.is_some() && pipeline.unwrap()@
                    == resources.pipeline,
                _ => pipeline.is_none(),
            },
    {
        match self.stage {
            Stage::Active { surface: _, pipeline } => Some(pipeline),
            _ => None,
        }
    }

    /// Tells whether the controller has ended.
    pub fn is_closed(&self) -> (closed: bool)
        ensures
            closed == (self.phase_spec() == Phase::Closed),
    {
        match self.stage {
            Stage::Closed => true,
            _ => false,
        }
    }

    /// The application was activated.
    pub fn activated(&mut self) -> (commands: Vec<Command>)
        ensures
            (final(self).phase_spec(), commands@) == on_activated(old(self).phase_spec()),
            final(self).same_setup(*old(self)),
    {
        let mut commands: Vec<Command> = Vec::new();
        match self.stage {
            Stage::Uninitialized => {
                self.stage = Stage::Activating;
                commands.push(Command::OpenWindow);
                proof {
                    assert(commands@ =~= seq![Command::OpenWindow]);
                }
            },
            _ => {},
        }
        commands
    }

    /// The platform opened the window.
    pub fn window_ready(&mut self, report: WindowReport) -> (commands: Vec<Command>)
        ensures
            (final(self).phase_spec(), commands@) == on_window_ready(
                old(self).source_spec(),
                old(self).phase_spec(),
                report,
            ),
            final(self).same_setup(*old(self)),
    {
        let mut commands: Vec<Command> = Vec::new();
        match self.stage {
            Stage::Activating => {
                let size = report.metrics.authoritative(self.source);
                let surface = SurfaceBinding::bind(size, report.format, report.present_mode);
                let pipeline = PipelineResources::build(surface.config().format);
                commands.push(Command::BindSurface(surface.config()));
                commands.push(Command::BuildPipeline(pipeline.descriptor()));
                self.stage = Stage::Active { surface, pipeline };
                proof {
                    let resources = first_resources(old(self).source_spec(), report);
                    assert(commands@ =~= seq![
                        Command::BindSurface(resources.surface),
                        Command::BuildPipeline(resources.pipeline),
                    ]);
                }
            },
            _ => {},
        }
        commands
    }

    /// The window has a new size.
    pub fn resized(&mut self, size: Size) -> (commands: Vec<Command>)
        ensures
            (final(self).phase_spec(), commands@) == on_resized(old(self).phase_spec(), size),
            final(self).same_setup(*old(self)),
    {
        proof {
            use_type_invariant(&*self);
        }
        let mut commands: Vec<Command> = Vec::new();
        match self.stage {
            Stage::Active { surface, pipeline } => {
                let mut surface = surface;
                surface.reconfigure(size);
                commands.push(Command::Configure(surface.config()));
                commands.push(Command::RequestRedraw);
                self.stage = Stage::Active { surface, pipeline };
                proof {
                    assert(commands@ =~= seq![
                        Command::Configure(surface@),
                        Command::RequestRedraw,
                    ]);
                }
            },
            Stage::Closed => {},
            _ => {
                self.stage = Stage::Closed;
                commands.push(
                    Command::Warn(
                        Violation { operation: Operation::Resize, missing: Resource::Surface },
                    ),
                );
                commands.push(Command::ExitLoop);
                proof {
                    assert(commands@ =~= warn_and_exit(Operation::Resize, Resource::Surface));
                }
            },
        }
        commands
    }

    /// The window wants its contents drawn.
    pub fn redraw_requested(&mut self) -> (commands: Vec<Command>)
        ensures
            (final(self).phase_spec(), commands@) == on_redraw(old(self).phase_spec()),
            final(self).same_setup(*old(self)),
    {
        let mut commands: Vec<Command> = Vec::new();
        match self.stage {
            Stage::Active { surface, pipeline: _ } => {
                commands.push(Command::AcquireFrame(surface.config()));
                proof {
                    assert(commands@ =~= seq![Command::AcquireFrame(surface@)]);
                }
            },
            _ => {
                self.stage = Stage::Closed;
                commands.push(
                    Command::Warn(
                        Violation { operation: Operation::Redraw, missing: Resource::Window },
                    ),
                );
                commands.push(Command::ExitLoop);
                proof {
                    assert(commands@ =~= warn_and_exit(Operation::Redraw, Resource::Window));
                }
            },
        }
        commands
    }

    /// The surface answered the one attempt to acquire a frame. A failure is
    /// handed on as it is: nothing is drawn, submitted or presented, and
    /// nothing is tried again. The controller stays as it is, whatever the
    /// answer.
    pub fn frame_answered(&self, status: AcquireStatus) -> (outcome: Result<
        Vec<Command>,
        SurfaceError,
    >)
        ensures
            match status {
                AcquireStatus::Failed(error) => outcome == Err::<Vec<Command>, SurfaceError>(error),
                AcquireStatus::Acquired => outcome.is_ok() && outcome.unwrap()@
                    == on_frame_answered(self.phase_spec(), status).1,
            },
    {
        match self.stage {
            Stage::Active { surface, pipeline: _ } => match surface.acquire_frame(status) {
                Ok(frame) => {
                    let mut commands: Vec<Command> = Vec::new();
                    commands.push(Command::Render(RenderPass::triangle()));
                    commands.push(Command::Submit);
                    commands.push(Command::Present(frame));
                    proof {
                        assert(commands@ =~= draw_commands(surface@));
                    }
                    Ok(commands)
                },
                Err(error) => Err(error),
            },
            _ => match status {
                AcquireStatus::Acquired => Ok(Vec::new()),
                AcquireStatus::Failed(error) => Err(error),
            },
        }
    }

    /// The user asked for the window to be closed.
    pub fn close_requested(&mut self) -> (commands: Vec<Command>)
        ensures
            (final(self).phase_spec(), commands@) == on_close(old(self).phase_spec()),
            final(self).same_setup(*old(self)),
    {
        let mut commands: Vec<Command> = Vec::new();
        match self.stage {
            Stage::Closed => {},
            _ => {
                self.stage = Stage::Closed;
                commands.push(Command::ReleaseWindow);
                commands.push(Command::ExitLoop);
                proof {
                    assert(commands@ =~= seq![Command::ReleaseWindow, Command::ExitLoop]);
                }
            },
        }
        commands
    }

    /// Takes one event and returns the commands to carry out before the
    /// next. The one event that fails is the answer of a surface that gave
    /// no frame: its error is returned, and the controller is left as it
    /// was.
    pub fn handle(&mut self, event: Event) -> (outcome: Result<Vec<Command>, SurfaceError>)
        ensures
            final(self).same_setup(*old(self)),
            final(self).phase_spec() == step_spec(
                old(self).source_spec(),
                old(self).phase_spec(),
                event,
            ).0,
            match event.failure() {
                Some(error) => outcome == Err::<Vec<Command>, SurfaceError>(error)
                    && final(self).phase_spec() == old(self).phase_spec(),
                None => outcome.is_ok() && outcome.unwrap()@ == step_spec(
                    old(self).source_spec(),
                    old(self).phase_spec(),
                    event,
                ).1,
            },
    {
        match event {
            Event::Activated => Ok(self.activated()),
            Event::WindowReady(report) => Ok(self.window_ready(report)),
            Event::Resized(size) => Ok(self.resized(size)),
            Event::RedrawRequested => Ok(self.redraw_requested()),
            Event::FrameAnswered(status) => self.frame_answered(status),
            Event::CloseRequested => Ok(self.close_requested()),
        }
    }

    /// Takes the events in order and goes on after an error. Returns all the
    /// commands in order, and all the errors in order.
    pub fn run(&mut self, events: &Vec<Event>) -> (outcome: (Vec<Command>, Vec<SurfaceError>))
        ensures
            (final(self).phase_spec(), outcome.0@) == run_spec(
                old(self).source_spec(),
                old(self).phase_spec(),
                events@,
            ),
            outcome.1@ == failures_spec(events@),
            final(self).same_setup(*old(self)),
    {
        let mut commands: Vec<Command> = Vec::new();
        let mut failures: Vec<SurfaceError> = Vec::new();
        let mut i: usize = 0;
        while i < events.len()
            invariant
                i <= events.len(),
                self.same_setup(*old(self)),
                (self.phase_spec(), commands@) == run_spec(
                    old(self).source_spec(),
                    old(self).phase_spec(),
                    events@.take(i as int),
                ),
                failures@ == failures_spec(events@.take(i as int)),
            decreases events.len() - i,
        {
            proof {
                let next = events@.take(i + 1);
                assert(next.drop_last() =~= events@.take(i as int));
                assert(next.last() == events@[i as int]);
            }
            match self.handle(events[i]) {
                Ok(later) => {
                    let mut later = later;
                    commands.append(&mut later);
                },
                Err(error) => {
                    failures.push(error);
                    proof {
                        assert(commands@ + Seq::<Command>::empty() =~= commands@);
                    }
                },
            }
            i = i + 1;
        }
        proof {
            assert(events@.take(i as int) =~= events@);
        }
        (commands, failures)
    }
}

} // verus!
