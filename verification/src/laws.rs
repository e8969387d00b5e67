//! What holds of the controller whatever the platform sends.

use crate::command::{
    gpu_free, last_applied, occurrences, presents, Command, Event, Operation, Resource,
    Violation, WindowReport,
};
use crate::controller::{
    draw_commands, failures_spec, on_resized, on_window_ready, run_spec, step_spec,
    warn_and_exit, Phase, Resources,
};
use crate::geometry::{Size, SizeSource};
use crate::pipeline::pipeline_for;
use crate::pipeline::triangle_pass;
use crate::surface::{frame_of, AcquireStatus, SurfaceConfig, SurfaceError};
use vstd::prelude::*;

verus! {

/// Counting over a sequence with one more command at its end.
pub proof fn occurrences_push(commands: Seq<Command>, last: Command, command: Command)
    ensures
        occurrences(commands.push(last), command) == occurrences(commands, command) + if last
            == command {
            1nat
        } else {
            0nat
        },
{
    assert(commands.push(last).drop_last() =~= commands);
}

/// Counting presents over a sequence with one more command at its end.
pub proof fn presents_push(commands: Seq<Command>, last: Command)
    ensures
        presents(commands.push(last)) == presents(commands) + if last is Present {
            1nat
        } else {
            0nat
        },
{
    assert(commands.push(last).drop_last() =~= commands);
}

/// The configuration applied last, over a sequence with one more command at
/// its end.
pub proof fn last_applied_push(commands: Seq<Command>, last: Command)
    ensures
        last_applied(commands.push(last)) == match last.applied_config() {
            Some(config) => Some(config),
            None => last_applied(commands),
        },
{
    assert(commands.push(last).drop_last() =~= commands);
}

/// Of two runs of commands, the second decides which configuration was
/// applied last, unless it applies none.
pub proof fn last_applied_concat(earlier: Seq<Command>, later: Seq<Command>)
    ensures
        last_applied(earlier + later) == match last_applied(later) {
            Some(config) => Some(config),
            None => last_applied(earlier),
        },
    decreases later.len(),
{
    if later.len() == 0 {
        assert(earlier + later =~= earlier);
    } else {
        assert((earlier + later).drop_last() =~= earlier + later.drop_last());
        assert((earlier + later).last() == later.last());
        last_applied_concat(earlier, later.drop_last());
    }
}

/// Presents add up over two runs of commands.
pub proof fn presents_concat(earlier: Seq<Command>, later: Seq<Command>)
    ensures
        presents(earlier + later) == presents(earlier) + presents(later),
    decreases later.len(),
{
    if later.len() == 0 {
        assert(earlier + later =~= earlier);
    } else {
        assert((earlier + later).drop_last() =~= earlier + later.drop_last());
        assert((earlier + later).last() == later.last());
        presents_concat(earlier, later.drop_last());
    }
}

/// Two runs of commands that call no backend make one that calls none.
pub proof fn gpu_free_concat(earlier: Seq<Command>, later: Seq<Command>)
    requires
        gpu_free(earlier),
        gpu_free(later),
    ensures
        gpu_free(earlier + later),
{
    assert forall|i: int| 0 <= i < (earlier + later).len() implies !(#[trigger] (earlier
        + later)[i]).is_gpu_call() by {
        if i < earlier.len() {
            assert((earlier + later)[i] == earlier[i]);
        } else {
            assert((earlier + later)[i] == later[i - earlier.len()]);
        }
    }
}

/// A run of events that ends in one more event is the run of the events
/// before, followed by the step of the last.
pub proof fn run_one_more(source: SizeSource, phase: Phase, events: Seq<Event>, event: Event)
    ensures
        ({
            let (reached, earlier) = run_spec(source, phase, events);
            let (next, later) = step_spec(source, reached, event);
            run_spec(source, phase, events.push(event)) == (next, earlier + later)
        }),
{
    assert(events.push(event).drop_last() =~= events);
}

/// The errors of a run of events that ends in one more event are the errors
/// of the events before, followed by the error of the last, if it has one.
pub proof fn failures_one_more(events: Seq<Event>, event: Event)
    ensures
        failures_spec(events.push(event)) == match event.failure() {
            Some(error) => failures_spec(events).push(error),
            None => failures_spec(events),
        },
{
    assert(events.push(event).drop_last() =~= events);
}

/// The first configuration of a surface never has a zero dimension, whatever
/// the platform reports: with the reported size as the source, its width and
/// height are the reported ones with one in place of a zero. It has the
/// negotiated format and presentation mode, and the pipeline is built for
/// that format.
pub proof fn activation_binds_clamped_size(source: SizeSource, report: WindowReport)
    ensures
        ({
            let (next, commands) = on_window_ready(source, Phase::Activating, report);
            let surface = next->Active_0.surface;
            let reported = report.metrics.reported;
            &&& next is Active
            &&& next.wf()
            &&& surface.size.width >= 1 && surface.size.height >= 1
            &&& source == SizeSource::Reported ==> surface.size == Size {
                width: if reported.width == 0 {
                    1
                } else {
                    reported.width
                },
                height: if reported.height == 0 {
                    1
                } else {
                    reported.height
                },
            }
            &&& surface.format == report.format
            &&& surface.present_mode == report.present_mode
            &&& commands == seq![
                Command::BindSurface(surface),
                Command::BuildPipeline(pipeline_for(report.format)),
            ]
            &&& last_applied(commands) == Some(surface)
        }),
{
    let (next, commands) = on_window_ready(source, Phase::Activating, report);
    let bind = commands[0];
    let build = commands[1];
    assert(commands =~= Seq::<Command>::empty().push(bind).push(build));
    last_applied_push(Seq::empty(), bind);
    last_applied_push(Seq::empty().push(bind), build);
}

/// A resize while active applies a configuration whose width and height are
/// the reported ones, with one in place of a zero; the controller keeps that
/// configuration, with format and presentation mode as they were. This
/// holds of every reported size, with or without a zero dimension.
pub proof fn resize_applies_clamped_size(resources: Resources, size: Size)
    ensures
        ({
            let (next, commands) = on_resized(Phase::Active(resources), size);
            let applied = SurfaceConfig {
                size: Size {
                    width: if size.width == 0 {
                        1
                    } else {
                        size.width
                    },
                    height: if size.height == 0 {
                        1
                    } else {
                        size.height
                    },
                },
                format: resources.surface.format,
                present_mode: resources.surface.present_mode,
            };
            &&& next == Phase::Active(Resources { surface: applied, pipeline: resources.pipeline })
            &&& commands == seq![Command::Configure(applied), Command::RequestRedraw]
            &&& last_applied(commands) == Some(applied)
            &&& presents(commands) == 0
        }),
{
    let (next, commands) = on_resized(Phase::Active(resources), size);
    let configure = commands[0];
    let built = Seq::<Command>::empty().push(configure).push(Command::RequestRedraw);
    assert(commands =~= built);
    last_applied_push(Seq::empty(), configure);
    last_applied_push(Seq::empty().push(configure), Command::RequestRedraw);
    presents_push(Seq::empty(), configure);
    presents_push(Seq::empty().push(configure), Command::RequestRedraw);
}

/// Once the resources exist, another activation is a no-op: the phase, and
/// with it the surface and its configuration, stays as it is, and nothing is
/// commanded. The same holds of a window report that nobody asked for.
pub proof fn reactivation_changes_nothing(source: SizeSource, resources: Resources, event: Event)
    requires
        event is Activated || event is WindowReady,
    ensures
        step_spec(source, Phase::Active(resources), event) == (
            Phase::Active(resources),
            Seq::<Command>::empty(),
        ),
{
}

/// A resize followed at once by a redraw presents a frame of the new size:
/// the frame is asked of the surface as the resize configured it, never as
/// it was before, and the frame that is presented has the new size.
pub proof fn redraw_after_resize_uses_new_size(
    source: SizeSource,
    resources: Resources,
    size: Size,
)
    ensures
        ({
            let events = seq![
                Event::Resized(size),
                Event::RedrawRequested,
                Event::FrameAnswered(AcquireStatus::Acquired),
            ];
            let (next, commands) = run_spec(source, Phase::Active(resources), events);
            let surface = resources.surface.resized(size);
            &&& surface.size == size.clamped_spec()
            &&& next == Phase::Active(Resources { surface, pipeline: resources.pipeline })
            &&& commands == seq![
                Command::Configure(surface),
                Command::RequestRedraw,
                Command::AcquireFrame(surface),
                Command::Render(triangle_pass()),
                Command::Submit,
                Command::Present(frame_of(surface)),
            ]
            &&& frame_of(surface).extent == size.clamped_spec()
        }),
{
    let start = Phase::Active(resources);
    let none = Seq::<Event>::empty();
    let one = none.push(Event::Resized(size));
    let two = one.push(Event::RedrawRequested);
    let three = two.push(Event::FrameAnswered(AcquireStatus::Acquired));
    assert(three =~= seq![
        Event::Resized(size),
        Event::RedrawRequested,
        Event::FrameAnswered(AcquireStatus::Acquired),
    ]);
    run_one_more(source, start, none, Event::Resized(size));
    run_one_more(source, start, one, Event::RedrawRequested);
    run_one_more(source, start, two, Event::FrameAnswered(AcquireStatus::Acquired));
    let surface = resources.surface.resized(size);
    let commands = run_spec(source, start, three).1;
    assert(commands =~= seq![
        Command::Configure(surface),
        Command::RequestRedraw,
        Command::AcquireFrame(surface),
        Command::Render(triangle_pass()),
        Command::Submit,
        Command::Present(frame_of(surface)),
    ]);
}

/// Counting over the two commands that end the application over a
/// violation.
pub proof fn warn_and_exit_is_harmless(operation: Operation, missing: Resource)
    ensures
        gpu_free(warn_and_exit(operation, missing)),
        presents(warn_and_exit(operation, missing)) == 0,
        last_applied(warn_and_exit(operation, missing)) == None::<SurfaceConfig>,
        occurrences(warn_and_exit(operation, missing), Command::Submit) == 0,
        occurrences(warn_and_exit(operation, missing), Command::ExitLoop) == 1,
{
    let commands = warn_and_exit(operation, missing);
    let warn = commands[0];
    let one = Seq::<Command>::empty().push(warn);
    assert(commands =~= one.push(Command::ExitLoop));
    presents_push(Seq::empty(), warn);
    presents_push(one, Command::ExitLoop);
    last_applied_push(Seq::empty(), warn);
    last_applied_push(one, Command::ExitLoop);
    occurrences_push(Seq::empty(), warn, Command::Submit);
    occurrences_push(one, Command::ExitLoop, Command::Submit);
    occurrences_push(Seq::empty(), warn, Command::ExitLoop);
    occurrences_push(one, Command::ExitLoop, Command::ExitLoop);
}

/// A redraw without the resources, be it before they exist or after they are
/// gone, calls the graphics backend for nothing: it logs a warning that
/// names the window as missing, ends the event loop, and leaves the
/// controller closed.
pub proof fn redraw_without_resources_closes(source: SizeSource, phase: Phase)
    requires
        !(phase is Active),
    ensures
        ({
            let (next, commands) = step_spec(source, phase, Event::RedrawRequested);
            &&& next == Phase::Closed
            &&& commands == warn_and_exit(Operation::Redraw, Resource::Window)
            &&& gpu_free(commands)
            &&& presents(commands) == 0
            &&& occurrences(commands, Command::Submit) == 0
            &&& Event::RedrawRequested.failure() == None::<SurfaceError>
        }),
{
    warn_and_exit_is_harmless(Operation::Redraw, Resource::Window);
}

/// A redraw commands the end of the event loop exactly when the resources
/// are absent, and then exactly once; with the resources it asks for one
/// frame, once, and commands no end.
pub proof fn redraw_exits_exactly_without_resources(source: SizeSource, phase: Phase)
    ensures
        ({
            let (next, commands) = step_spec(source, phase, Event::RedrawRequested);
            &&& occurrences(commands, Command::ExitLoop) == if phase is Active {
                0nat
            } else {
                1nat
            }
            &&& phase is Active ==> next == phase && commands == seq![
                Command::AcquireFrame(phase->Active_0.surface),
            ]
            &&& !(phase is Active) ==> next == Phase::Closed && commands[0] == Command::Warn(
                Violation { operation: Operation::Redraw, missing: Resource::Window },
            ) && commands[1] == Command::ExitLoop
        }),
{
    let commands = step_spec(source, phase, Event::RedrawRequested).1;
    if phase is Active {
        assert(commands =~= Seq::<Command>::empty().push(commands[0]));
        occurrences_push(Seq::empty(), commands[0], Command::ExitLoop);
    } else {
        warn_and_exit_is_harmless(Operation::Redraw, Resource::Window);
    }
}

/// The commands that draw on an acquired frame submit once and present once,
/// and apply no configuration.
pub proof fn drawing_submits_and_presents_once(surface: SurfaceConfig)
    ensures
        occurrences(draw_commands(surface), Command::Submit) == 1,
        occurrences(draw_commands(surface), Command::Present(frame_of(surface))) == 1,
        presents(draw_commands(surface)) == 1,
        last_applied(draw_commands(surface)) == None::<SurfaceConfig>,
        last_applied(draw_commands(surface).take(2)) == None::<SurfaceConfig>,
{
    let render = Command::Render(triangle_pass());
    let present = Command::Present(frame_of(surface));
    let one = Seq::<Command>::empty().push(render);
    let two = one.push(Command::Submit);
    assert(draw_commands(surface) =~= two.push(present));
    assert(draw_commands(surface).take(2) =~= two);
    occurrences_push(Seq::empty(), render, Command::Submit);
    occurrences_push(one, Command::Submit, Command::Submit);
    occurrences_push(two, present, Command::Submit);
    occurrences_push(Seq::empty(), render, present);
    occurrences_push(one, Command::Submit, present);
    occurrences_push(two, present, present);
    presents_push(Seq::empty(), render);
    presents_push(one, Command::Submit);
    presents_push(two, present);
    last_applied_push(Seq::empty(), render);
    last_applied_push(one, Command::Submit);
    last_applied_push(two, present);
}

/// One redraw while active, answered by a frame, gives rise to exactly one
/// attempt to acquire, exactly one submit and exactly one present, of a
/// frame of the surface as it is configured, and leaves the controller as it
/// was.
pub proof fn redraw_submits_and_presents_once(source: SizeSource, resources: Resources)
    ensures
        ({
            let events = seq![
                Event::RedrawRequested,
                Event::FrameAnswered(AcquireStatus::Acquired),
            ];
            let (next, commands) = run_spec(source, Phase::Active(resources), events);
            &&& next == Phase::Active(resources)
            &&& commands == seq![Command::AcquireFrame(resources.surface)] + draw_commands(
                resources.surface,
            )
            &&& occurrences(commands, Command::AcquireFrame(resources.surface)) == 1
            &&& occurrences(commands, Command::Submit) == 1
            &&& presents(commands) == 1
            &&& occurrences(commands, Command::Present(frame_of(resources.surface))) == 1
            &&& failures_spec(events) == Seq::<SurfaceError>::empty()
        }),
{
    let start = Phase::Active(resources);
    let surface = resources.surface;
    let answer = Event::FrameAnswered(AcquireStatus::Acquired);
    let none = Seq::<Event>::empty();
    let one = none.push(Event::RedrawRequested);
    let two = one.push(answer);
    assert(two =~= seq![Event::RedrawRequested, answer]);
    run_one_more(source, start, none, Event::RedrawRequested);
    run_one_more(source, start, one, answer);
    failures_one_more(none, Event::RedrawRequested);
    failures_one_more(one, answer);
    let acquire = Command::AcquireFrame(surface);
    let render = Command::Render(triangle_pass());
    let present = Command::Present(frame_of(surface));
    let c1 = Seq::<Command>::empty().push(acquire);
    let c2 = c1.push(render);
    let c3 = c2.push(Command::Submit);
    let commands = run_spec(source, start, two).1;
    assert(commands =~= c3.push(present));
    assert(commands =~= seq![acquire] + draw_commands(surface));
    occurrences_push(Seq::empty(), acquire, acquire);
    occurrences_push(c1, render, acquire);
    occurrences_push(c2, Command::Submit, acquire);
    occurrences_push(c3, present, acquire);
    occurrences_push(Seq::empty(), acquire, Command::Submit);
    occurrences_push(c1, render, Command::Submit);
    occurrences_push(c2, Command::Submit, Command::Submit);
    occurrences_push(c3, present, Command::Submit);
    occurrences_push(Seq::empty(), acquire, present);
    occurrences_push(c1, render, present);
    occurrences_push(c2, Command::Submit, present);
    occurrences_push(c3, present, present);
    presents_push(Seq::empty(), acquire);
    presents_push(c1, render);
    presents_push(c2, Command::Submit);
    presents_push(c3, present);
}

/// One redraw while active, answered by a failure, gives rise to exactly one
/// attempt to acquire and to nothing else: nothing is submitted, nothing is
/// presented, no configuration is applied, and the controller is as it was.
/// The failure is the one error of the run.
pub proof fn failed_frame_draws_nothing(
    source: SizeSource,
    resources: Resources,
    error: SurfaceError,
)
    ensures
        ({
            let answer = Event::FrameAnswered(AcquireStatus::Failed(error));
            let events = seq![Event::RedrawRequested, answer];
            let (next, commands) = run_spec(source, Phase::Active(resources), events);
            &&& answer.failure() == Some(error)
            &&& step_spec(source, Phase::Active(resources), answer) == (
                Phase::Active(resources),
                Seq::<Command>::empty(),
            )
            &&& next == Phase::Active(resources)
            &&& commands == seq![Command::AcquireFrame(resources.surface)]
            &&& occurrences(commands, Command::Submit) == 0
            &&& presents(commands) == 0
            &&& last_applied(commands) == None::<SurfaceConfig>
            &&& failures_spec(events) == seq![error]
        }),
{
    let start = Phase::Active(resources);
    let answer = Event::FrameAnswered(AcquireStatus::Failed(error));
    let none = Seq::<Event>::empty();
    let one = none.push(Event::RedrawRequested);
    let two = one.push(answer);
    assert(two =~= seq![Event::RedrawRequested, answer]);
    run_one_more(source, start, none, Event::RedrawRequested);
    run_one_more(source, start, one, answer);
    failures_one_more(none, Event::RedrawRequested);
    failures_one_more(one, answer);
    assert(failures_spec(two) =~= seq![error]);
    let acquire = Command::AcquireFrame(resources.surface);
    let commands = run_spec(source, start, two).1;
    assert(commands =~= Seq::<Command>::empty().push(acquire));
    occurrences_push(Seq::empty(), acquire, Command::Submit);
    presents_push(Seq::empty(), acquire);
    last_applied_push(Seq::empty(), acquire);
}

/// Only a frame that was acquired while the resources exist is presented: no
/// other event gives rise to a present, and that one to exactly one.
pub proof fn only_an_acquired_frame_is_presented(source: SizeSource, phase: Phase, event: Event)
    ensures
        presents(step_spec(source, phase, event).1) == if event == Event::FrameAnswered(
            AcquireStatus::Acquired,
        ) && phase is Active {
            1nat
        } else {
            0nat
        },
{
    let commands = step_spec(source, phase, event).1;
    if commands.len() == 0 {
    } else if commands.len() == 1 {
        assert(commands =~= Seq::<Command>::empty().push(commands[0]));
        presents_push(Seq::empty(), commands[0]);
    } else if commands.len() == 2 {
        assert(commands =~= Seq::<Command>::empty().push(commands[0]).push(commands[1]));
        presents_push(Seq::empty(), commands[0]);
        presents_push(Seq::empty().push(commands[0]), commands[1]);
    } else {
        assert(phase is Active);
        drawing_submits_and_presents_once(phase->Active_0.surface);
    }
}

/// Every event keeps the phase well formed: while active, the surface has no
/// zero dimension and the pipeline fits its format.
pub proof fn step_keeps_well_formed(source: SizeSource, phase: Phase, event: Event)
    requires
        phase.wf(),
    ensures
        step_spec(source, phase, event).0.wf(),
{
}

/// The event loop is told to end exactly when the controller closes: a step
/// that commands the exit ends in the closed phase, and a step that closes
/// the controller commands the exit last.
pub proof fn exit_means_closed(source: SizeSource, phase: Phase, event: Event)
    ensures
        ({
            let (next, commands) = step_spec(source, phase, event);
            &&& (exists|i: int| 0 <= i < commands.len() && commands[i] == Command::ExitLoop)
                ==> next == Phase::Closed
            &&& next == Phase::Closed && phase != Phase::Closed ==> commands.len() == 2
                && commands[1] == Command::ExitLoop
        }),
{
}

/// After the end the controller stays closed, whatever events still
/// arrive, and what they give rise to calls no backend, applies no
/// configuration and presents nothing.
pub proof fn closed_is_terminal(source: SizeSource, events: Seq<Event>)
    ensures
        ({
            let (next, commands) = run_spec(source, Phase::Closed, events);
            &&& next == Phase::Closed
            &&& gpu_free(commands)
            &&& last_applied(commands) == None::<SurfaceConfig>
            &&& presents(commands) == 0
        }),
    decreases events.len(),
{
    if events.len() > 0 {
        closed_is_terminal(source, events.drop_last());
        let earlier = run_spec(source, Phase::Closed, events.drop_last()).1;
        let later = step_spec(source, Phase::Closed, events.last()).1;
        warn_and_exit_is_harmless(Operation::Redraw, Resource::Window);
        gpu_free_concat(earlier, later);
        last_applied_concat(earlier, later);
        presents_concat(earlier, later);
    }
}

/// After the end only a redraw is answered at all: with the warning and the
/// command to end. Every other event gives rise to nothing.
pub proof fn after_the_end_only_redraw_warns(source: SizeSource, event: Event)
    ensures
        step_spec(source, Phase::Closed, event) == (
            Phase::Closed,
            if event is RedrawRequested {
                warn_and_exit(Operation::Redraw, Resource::Window)
            } else {
                Seq::<Command>::empty()
            },
        ),
{
}

/// Running two sequences of events one after the other is running them as
/// one.
pub proof fn run_in_two_parts(
    source: SizeSource,
    phase: Phase,
    first: Seq<Event>,
    second: Seq<Event>,
)
    ensures
        ({
            let (reached, earlier) = run_spec(source, phase, first);
            let (next, later) = run_spec(source, reached, second);
            run_spec(source, phase, first + second) == (next, earlier + later)
        }),
    decreases second.len(),
{
    let (reached, earlier) = run_spec(source, phase, first);
    if second.len() == 0 {
        assert(first + second =~= first);
        assert(earlier + Seq::<Command>::empty() =~= earlier);
    } else {
        run_in_two_parts(source, phase, first, second.drop_last());
        assert((first + second).drop_last() =~= first + second.drop_last());
        assert((first + second).last() == second.last());
        let (before, sofar) = run_spec(source, reached, second.drop_last());
        let last = step_spec(source, before, second.last()).1;
        assert((earlier + sofar) + last =~= earlier + (sofar + last));
    }
}

/// Once a run of events has closed the controller, whatever events follow
/// leave it closed. The commands up to the end stay as they were, and what
/// follows them calls no backend, applies no configuration and presents
/// nothing.
pub proof fn nothing_follows_the_end(
    source: SizeSource,
    phase: Phase,
    events: Seq<Event>,
    more: Seq<Event>,
)
    requires
        run_spec(source, phase, events).0 == Phase::Closed,
    ensures
        ({
            let before = run_spec(source, phase, events).1;
            let (next, commands) = run_spec(source, phase, events + more);
            let after = run_spec(source, Phase::Closed, more).1;
            &&& next == Phase::Closed
            &&& commands == before + after
            &&& gpu_free(after)
            &&& last_applied(commands) == last_applied(before)
            &&& presents(commands) == presents(before)
        }),
{
    run_in_two_parts(source, phase, events, more);
    closed_is_terminal(source, more);
    let before = run_spec(source, phase, events).1;
    let after = run_spec(source, Phase::Closed, more).1;
    last_applied_concat(before, after);
    presents_concat(before, after);
}

/// A run of events keeps the phase well formed.
pub proof fn run_keeps_well_formed(source: SizeSource, phase: Phase, events: Seq<Event>)
    requires
        phase.wf(),
    ensures
        run_spec(source, phase, events).0.wf(),
    decreases events.len(),
{
    if events.len() > 0 {
        run_keeps_well_formed(source, phase, events.drop_last());
        let reached = run_spec(source, phase, events.drop_last()).0;
        step_keeps_well_formed(source, reached, events.last());
    }
}

/// True when every frame that the commands acquire is acquired from the
/// surface as the commands before it left it configured, and every frame
/// that they present is a frame of the surface as so configured.
pub open spec fn frames_are_current(commands: Seq<Command>) -> bool {
    &&& forall|i: int|
        0 <= i < commands.len() && (#[trigger] commands[i]) is AcquireFrame ==> last_applied(
            commands.take(i),
        ) == Some(commands[i]->AcquireFrame_0)
    &&& forall|i: int|
        0 <= i < commands.len() && (#[trigger] commands[i]) is Present ==> last_applied(
            commands.take(i),
        ) is Some && commands[i]->Present_0 == frame_of(last_applied(commands.take(i)).unwrap())
}

/// From the start on, whatever events arrive: while the controller is
/// active, the configuration it holds is the one that was applied to the
/// surface last; no frame is ever acquired against a configuration other
/// than the one applied last before it; and no frame is presented that is
/// not of that configuration.
pub proof fn configuration_is_never_stale(source: SizeSource, events: Seq<Event>)
    ensures
        ({
            let (phase, commands) = run_spec(source, Phase::Uninitialized, events);
            &&& phase is Active ==> last_applied(commands) == Some(phase->Active_0.surface)
            &&& frames_are_current(commands)
        }),
    decreases events.len(),
{
    if events.len() > 0 {
        configuration_is_never_stale(source, events.drop_last());
        let (reached, earlier) = run_spec(source, Phase::Uninitialized, events.drop_last());
        let (next, later) = step_spec(source, reached, events.last());
        let commands = earlier + later;
        last_applied_concat(earlier, later);
        if later.len() == 0 {
            assert(commands =~= earlier);
        } else if later.len() == 1 {
            assert(later =~= Seq::<Command>::empty().push(later[0]));
            last_applied_push(Seq::empty(), later[0]);
        } else if later.len() == 2 {
            assert(later =~= Seq::<Command>::empty().push(later[0]).push(later[1]));
            last_applied_push(Seq::empty(), later[0]);
            last_applied_push(Seq::empty().push(later[0]), later[1]);
        } else {
            assert(reached is Active);
            drawing_submits_and_presents_once(reached->Active_0.surface);
            last_applied_concat(earlier, later.take(2));
        }
        assert forall|i: int|
            0 <= i < commands.len() && (#[trigger] commands[i]) is AcquireFrame implies last_applied(
                commands.take(i),
            ) == Some(commands[i]->AcquireFrame_0) by {
            if i < earlier.len() {
                assert(commands.take(i) =~= earlier.take(i));
                assert(earlier[i] == commands[i]);
            } else {
                assert(commands[i] == later[i - earlier.len()]);
                assert(i == earlier.len());
                assert(commands.take(i) =~= earlier);
            }
        }
        assert forall|i: int|
            0 <= i < commands.len() && (#[trigger] commands[i]) is Present implies last_applied(
                commands.take(i),
            ) is Some && commands[i]->Present_0 == frame_of(
                last_applied(commands.take(i)).unwrap(),
            ) by {
            if i < earlier.len() {
                assert(commands.take(i) =~= earlier.take(i));
                assert(earlier[i] == commands[i]);
            } else {
                assert(commands[i] == later[i - earlier.len()]);
                assert(i == earlier.len() + 2);
                assert(commands.take(i) =~= earlier + later.take(2));
            }
        }
    }
}

} // verus!
