use meticulous::command::{count, Command, Event, Operation, Resource, Violation, WindowReport};
use meticulous::context::GraphicsContext;
use meticulous::controller::{Controller, Phase, Resources};
use meticulous::geometry::{Size, SizeSource, WindowMetrics};
use meticulous::pipeline::{PipelineResources, RenderPass};
use meticulous::surface::{
    AcquireStatus, ColorFormat, Frame, PresentMode, SurfaceConfig, SurfaceError,
};

const FORMAT: ColorFormat = ColorFormat { rank: 0 };
const MODE: PresentMode = PresentMode { rank: 0 };
const ACQUIRED: Event = Event::FrameAnswered(AcquireStatus::Acquired);
const ERRORS: [SurfaceError; 4] =
    [SurfaceError::Timeout, SurfaceError::Outdated, SurfaceError::Lost, SurfaceError::OutOfMemory];

fn controller(source: SizeSource) -> Controller {
    let context = GraphicsContext::create(true, true).unwrap();
    Controller::new(context, String::from("Meticulous"), source)
}

fn report(width: u32, height: u32) -> WindowReport {
    WindowReport {
        metrics: WindowMetrics { reported: Size::new(width, height), live: None },
        format: FORMAT,
        present_mode: MODE,
    }
}

fn config(width: u32, height: u32) -> SurfaceConfig {
    SurfaceConfig { size: Size::new(width, height), format: FORMAT, present_mode: MODE }
}

fn frame(width: u32, height: u32) -> Frame {
    Frame { extent: Size::new(width, height), format: FORMAT }
}

fn active(width: u32, height: u32) -> Phase {
    Phase::Active(Resources {
        surface: config(width, height),
        pipeline: PipelineResources::build(FORMAT).descriptor(),
    })
}

fn activate(width: u32, height: u32) -> Controller {
    let mut controller = controller(SizeSource::Reported);
    controller.handle(Event::Activated).unwrap();
    controller.handle(Event::WindowReady(report(width, height))).unwrap();
    controller
}

fn warning(operation: Operation, missing: Resource) -> Vec<Command> {
    vec![Command::Warn(Violation { operation, missing }), Command::ExitLoop]
}

fn drawing(width: u32, height: u32) -> Vec<Command> {
    vec![
        Command::Render(RenderPass::triangle()),
        Command::Submit,
        Command::Present(frame(width, height)),
    ]
}

fn presents(commands: &[Command]) -> usize {
    commands.iter().filter(|command| matches!(command, Command::Present(_))).count()
}

#[test]
fn new_controller_has_nothing_yet() {
    let controller = controller(SizeSource::LiveMetrics);
    assert_eq!(controller.phase(), Phase::Uninitialized);
    assert_eq!(controller.title(), "Meticulous");
    assert_eq!(controller.size_source(), SizeSource::LiveMetrics);
    assert_eq!(controller.context(), GraphicsContext::create(true, true).unwrap());
    assert!(controller.surface().is_none());
    assert!(controller.pipeline().is_none());
    assert!(!controller.is_closed());
}

#[test]
fn activation_asks_for_the_window_once() {
    let mut controller = controller(SizeSource::Reported);
    assert_eq!(controller.handle(Event::Activated), Ok(vec![Command::OpenWindow]));
    assert_eq!(controller.phase(), Phase::Activating);
    assert_eq!(controller.handle(Event::Activated), Ok(vec![]));
    assert_eq!(controller.phase(), Phase::Activating);
}

#[test]
fn window_report_binds_surface_and_builds_pipeline() {
    let mut controller = controller(SizeSource::Reported);
    controller.handle(Event::Activated).unwrap();
    let commands = controller.handle(Event::WindowReady(report(640, 480))).unwrap();
    assert_eq!(
        commands,
        vec![
            Command::BindSurface(config(640, 480)),
            Command::BuildPipeline(PipelineResources::build(FORMAT).descriptor()),
        ]
    );
    assert_eq!(controller.phase(), active(640, 480));
    assert_eq!(controller.surface().unwrap().config(), config(640, 480));
    assert_eq!(controller.pipeline().unwrap().format(), FORMAT);
}

#[test]
fn activation_with_zero_size_binds_one_by_one() {
    let mut controller = controller(SizeSource::Reported);
    controller.handle(Event::Activated).unwrap();
    let commands = controller.handle(Event::WindowReady(report(0, 0))).unwrap();
    assert_eq!(commands[0], Command::BindSurface(config(1, 1)));
    assert_eq!(controller.phase(), active(1, 1));
}

#[test]
fn activation_uses_live_metrics_where_asked() {
    let mut controller = controller(SizeSource::LiveMetrics);
    controller.handle(Event::Activated).unwrap();
    let stale = WindowReport {
        metrics: WindowMetrics { reported: Size::new(0, 0), live: Some(Size::new(1600, 900)) },
        format: FORMAT,
        present_mode: MODE,
    };
    let commands = controller.handle(Event::WindowReady(stale)).unwrap();
    assert_eq!(commands[0], Command::BindSurface(config(1600, 900)));
    assert_eq!(controller.phase(), active(1600, 900));
}

#[test]
fn pipeline_follows_the_negotiated_format() {
    let mut controller = controller(SizeSource::Reported);
    controller.handle(Event::Activated).unwrap();
    let negotiated = WindowReport {
        metrics: WindowMetrics { reported: Size::new(10, 10), live: None },
        format: ColorFormat { rank: 4 },
        present_mode: PresentMode { rank: 2 },
    };
    let commands = controller.handle(Event::WindowReady(negotiated)).unwrap();
    assert_eq!(
        commands[1],
        Command::BuildPipeline(PipelineResources::build(ColorFormat { rank: 4 }).descriptor())
    );
    assert_eq!(controller.surface().unwrap().config().present_mode, PresentMode { rank: 2 });
    assert!(controller.pipeline().unwrap().fits(controller.surface().unwrap().config().format));
}

#[test]
fn second_activation_is_a_no_op() {
    let mut controller = activate(640, 480);
    let before = controller.phase();
    assert_eq!(controller.handle(Event::Activated), Ok(vec![]));
    assert_eq!(controller.phase(), before);
    assert_eq!(controller.surface().unwrap().config(), config(640, 480));
}

#[test]
fn unasked_window_report_is_ignored() {
    let mut fresh = controller(SizeSource::Reported);
    assert_eq!(fresh.handle(Event::WindowReady(report(640, 480))), Ok(vec![]));
    assert_eq!(fresh.phase(), Phase::Uninitialized);
    let mut running = activate(640, 480);
    assert_eq!(running.handle(Event::WindowReady(report(100, 100))), Ok(vec![]));
    assert_eq!(running.phase(), active(640, 480));
}

#[test]
fn resize_reconfigures_and_requests_a_redraw() {
    let mut controller = activate(640, 480);
    let commands = controller.handle(Event::Resized(Size::new(1024, 768)));
    assert_eq!(commands, Ok(vec![Command::Configure(config(1024, 768)), Command::RequestRedraw]));
    assert_eq!(controller.phase(), active(1024, 768));
}

#[test]
fn resize_with_zero_dimension_is_clamped() {
    for (w, h) in [(0u32, 0u32), (0, 600), (800, 0), (0, 1), (1, 0), (0, u32::MAX)] {
        let mut controller = activate(640, 480);
        let commands = controller.handle(Event::Resized(Size::new(w, h))).unwrap();
        let expected = config(w.max(1), h.max(1));
        assert_eq!(commands[0], Command::Configure(expected));
        assert_eq!(controller.surface().unwrap().config(), expected);
    }
}

#[test]
fn resize_draws_no_frame() {
    let mut controller = activate(640, 480);
    let commands = controller.handle(Event::Resized(Size::new(1024, 768))).unwrap();
    assert_eq!(count(&commands, Command::Submit), 0);
    assert_eq!(count(&commands, Command::AcquireFrame(config(1024, 768))), 0);
    assert_eq!(presents(&commands), 0);
}

#[test]
fn redraw_asks_for_one_frame() {
    let mut controller = activate(640, 480);
    let commands = controller.handle(Event::RedrawRequested);
    assert_eq!(commands, Ok(vec![Command::AcquireFrame(config(640, 480))]));
    assert_eq!(controller.phase(), active(640, 480));
}

#[test]
fn acquired_frame_is_drawn_submitted_and_presented() {
    let mut controller = activate(640, 480);
    controller.handle(Event::RedrawRequested).unwrap();
    assert_eq!(controller.handle(ACQUIRED), Ok(drawing(640, 480)));
    assert_eq!(controller.frame_answered(AcquireStatus::Acquired), Ok(drawing(640, 480)));
    assert_eq!(controller.phase(), active(640, 480));
}

#[test]
fn redraw_after_resize_uses_the_new_size() {
    let mut controller = activate(640, 480);
    controller.handle(Event::Resized(Size::new(800, 600))).unwrap();
    let mut commands = controller.handle(Event::RedrawRequested).unwrap();
    commands.extend(controller.handle(ACQUIRED).unwrap());
    assert_eq!(
        commands,
        vec![
            Command::AcquireFrame(config(800, 600)),
            Command::Render(RenderPass::triangle()),
            Command::Submit,
            Command::Present(frame(800, 600)),
        ]
    );
    assert_eq!(count(&commands, Command::Present(frame(640, 480))), 0);
}

#[test]
fn one_redraw_submits_and_presents_once() {
    let mut controller = activate(640, 480);
    for _ in 0..3 {
        let (commands, failures) = controller.run(&vec![Event::RedrawRequested, ACQUIRED]);
        assert!(failures.is_empty());
        assert_eq!(count(&commands, Command::AcquireFrame(config(640, 480))), 1);
        assert_eq!(count(&commands, Command::Submit), 1);
        assert_eq!(count(&commands, Command::Present(frame(640, 480))), 1);
        assert_eq!(presents(&commands), 1);
        assert_eq!(controller.phase(), active(640, 480));
    }
}

#[test]
fn failed_frame_is_handed_on_and_nothing_is_drawn() {
    for error in ERRORS {
        let mut controller = activate(640, 480);
        let asked = controller.handle(Event::RedrawRequested).unwrap();
        assert_eq!(asked, vec![Command::AcquireFrame(config(640, 480))]);
        let answer = Event::FrameAnswered(AcquireStatus::Failed(error));
        assert_eq!(controller.handle(answer), Err(error));
        assert_eq!(controller.frame_answered(AcquireStatus::Failed(error)), Err(error));
        assert_eq!(controller.phase(), active(640, 480));
        assert_eq!(controller.surface().unwrap().config(), config(640, 480));
        assert_eq!(controller.pipeline().unwrap().format(), FORMAT);
    }
}

#[test]
fn failed_frame_in_a_run_submits_and_presents_nothing() {
    for error in ERRORS {
        let mut controller = activate(640, 480);
        let events = vec![Event::RedrawRequested, Event::FrameAnswered(AcquireStatus::Failed(error))];
        let (commands, failures) = controller.run(&events);
        assert_eq!(commands, vec![Command::AcquireFrame(config(640, 480))]);
        assert_eq!(failures, vec![error]);
        assert_eq!(count(&commands, Command::Submit), 0);
        assert_eq!(presents(&commands), 0);
        assert_eq!(controller.phase(), active(640, 480));
    }
}

#[test]
fn redraw_after_a_failed_frame_takes_the_normal_path() {
    let mut controller = activate(640, 480);
    let events = vec![
        Event::RedrawRequested,
        Event::FrameAnswered(AcquireStatus::Failed(SurfaceError::Outdated)),
        Event::Resized(Size::new(700, 500)),
        Event::RedrawRequested,
        ACQUIRED,
    ];
    let (commands, failures) = controller.run(&events);
    assert_eq!(failures, vec![SurfaceError::Outdated]);
    let mut expected = vec![
        Command::AcquireFrame(config(640, 480)),
        Command::Configure(config(700, 500)),
        Command::RequestRedraw,
        Command::AcquireFrame(config(700, 500)),
    ];
    expected.extend(drawing(700, 500));
    assert_eq!(commands, expected);
}

#[test]
fn frame_answer_without_resources_draws_nothing() {
    let mut fresh = controller(SizeSource::Reported);
    assert_eq!(fresh.handle(ACQUIRED), Ok(vec![]));
    assert_eq!(fresh.phase(), Phase::Uninitialized);
    let lost = Event::FrameAnswered(AcquireStatus::Failed(SurfaceError::Lost));
    assert_eq!(fresh.handle(lost), Err(SurfaceError::Lost));
    assert_eq!(fresh.phase(), Phase::Uninitialized);
    let mut closed = activate(640, 480);
    closed.handle(Event::CloseRequested).unwrap();
    assert_eq!(closed.handle(ACQUIRED), Ok(vec![]));
    assert_eq!(closed.handle(lost), Err(SurfaceError::Lost));
    assert_eq!(closed.phase(), Phase::Closed);
}

#[test]
fn redraw_without_activation_closes_without_gpu_work() {
    let mut controller = controller(SizeSource::Reported);
    let commands = controller.handle(Event::RedrawRequested).unwrap();
    assert_eq!(commands, warning(Operation::Redraw, Resource::Window));
    assert!(commands.iter().all(|command| !command.touches_gpu()));
    assert_eq!(count(&commands, Command::ExitLoop), 1);
    assert_eq!(controller.phase(), Phase::Closed);
    assert!(controller.is_closed());
}

#[test]
fn redraw_while_window_is_underway_closes() {
    let mut controller = controller(SizeSource::Reported);
    controller.handle(Event::Activated).unwrap();
    let commands = controller.handle(Event::RedrawRequested);
    assert_eq!(commands, Ok(warning(Operation::Redraw, Resource::Window)));
    assert_eq!(controller.phase(), Phase::Closed);
}

#[test]
fn redraw_after_the_close_warns_and_exits() {
    let mut controller = activate(640, 480);
    controller.handle(Event::CloseRequested).unwrap();
    assert!(controller.surface().is_none());
    for _ in 0..2 {
        let commands = controller.handle(Event::RedrawRequested).unwrap();
        assert_eq!(commands, warning(Operation::Redraw, Resource::Window));
        assert_eq!(count(&commands, Command::ExitLoop), 1);
        assert!(commands.iter().all(|command| !command.touches_gpu()));
        assert_eq!(controller.phase(), Phase::Closed);
    }
}

#[test]
fn redraw_with_resources_commands_no_exit() {
    let mut controller = activate(640, 480);
    let commands = controller.handle(Event::RedrawRequested).unwrap();
    assert_eq!(count(&commands, Command::ExitLoop), 0);
    assert!(!controller.is_closed());
}

#[test]
fn resize_without_activation_closes_without_gpu_work() {
    let mut controller = controller(SizeSource::Reported);
    let commands = controller.handle(Event::Resized(Size::new(800, 600))).unwrap();
    assert_eq!(commands, warning(Operation::Resize, Resource::Surface));
    assert!(commands.iter().all(|command| !command.touches_gpu()));
    assert_eq!(controller.phase(), Phase::Closed);
}

#[test]
fn close_releases_the_window_before_the_exit() {
    let mut controller = activate(640, 480);
    let commands = controller.handle(Event::CloseRequested);
    assert_eq!(commands, Ok(vec![Command::ReleaseWindow, Command::ExitLoop]));
    assert_eq!(controller.phase(), Phase::Closed);
    assert!(controller.surface().is_none());
    assert!(controller.pipeline().is_none());
}

#[test]
fn close_before_activation_ends_the_loop() {
    let mut controller = controller(SizeSource::Reported);
    let commands = controller.handle(Event::CloseRequested);
    assert_eq!(commands, Ok(vec![Command::ReleaseWindow, Command::ExitLoop]));
    assert_eq!(controller.phase(), Phase::Closed);
}

#[test]
fn after_the_end_only_a_redraw_is_answered() {
    let mut controller = activate(640, 480);
    controller.handle(Event::CloseRequested).unwrap();
    for event in [
        Event::Activated,
        Event::WindowReady(report(640, 480)),
        Event::Resized(Size::new(800, 600)),
        ACQUIRED,
        Event::CloseRequested,
    ] {
        assert_eq!(controller.handle(event), Ok(vec![]));
        assert_eq!(controller.phase(), Phase::Closed);
    }
    assert_eq!(
        controller.handle(Event::RedrawRequested),
        Ok(warning(Operation::Redraw, Resource::Window))
    );
    assert_eq!(controller.phase(), Phase::Closed);
}

#[test]
fn nothing_after_the_end_reaches_the_backend() {
    let mut controller = activate(640, 480);
    controller.handle(Event::CloseRequested).unwrap();
    let events = vec![
        Event::RedrawRequested,
        Event::Resized(Size::new(800, 600)),
        Event::Activated,
        Event::WindowReady(report(1, 1)),
        ACQUIRED,
        Event::RedrawRequested,
        Event::CloseRequested,
    ];
    let (commands, failures) = controller.run(&events);
    assert!(failures.is_empty());
    assert!(commands.iter().all(|command| !command.touches_gpu()));
    assert_eq!(presents(&commands), 0);
    assert_eq!(controller.phase(), Phase::Closed);
}

#[test]
fn full_session_gives_the_expected_commands() {
    let mut controller = controller(SizeSource::Reported);
    let events = vec![
        Event::Activated,
        Event::WindowReady(report(640, 480)),
        Event::Resized(Size::new(1920, 1080)),
        Event::RedrawRequested,
        ACQUIRED,
        Event::CloseRequested,
        Event::Resized(Size::new(1, 1)),
        Event::Activated,
    ];
    let (commands, failures) = controller.run(&events);
    assert!(failures.is_empty());
    assert_eq!(
        commands,
        vec![
            Command::OpenWindow,
            Command::BindSurface(config(640, 480)),
            Command::BuildPipeline(PipelineResources::build(FORMAT).descriptor()),
            Command::Configure(config(1920, 1080)),
            Command::RequestRedraw,
            Command::AcquireFrame(config(1920, 1080)),
            Command::Render(RenderPass::triangle()),
            Command::Submit,
            Command::Present(frame(1920, 1080)),
            Command::ReleaseWindow,
            Command::ExitLoop,
        ]
    );
    assert_eq!(presents(&commands), 1);
    assert_eq!(controller.phase(), Phase::Closed);
}

#[test]
fn run_is_handle_event_by_event() {
    let events = vec![
        Event::Activated,
        Event::WindowReady(report(0, 50)),
        Event::RedrawRequested,
        ACQUIRED,
        Event::Resized(Size::new(0, 0)),
        Event::RedrawRequested,
        Event::FrameAnswered(AcquireStatus::Failed(SurfaceError::Timeout)),
        Event::Activated,
        Event::CloseRequested,
        Event::RedrawRequested,
    ];
    let mut whole = controller(SizeSource::Reported);
    let (at_once, failures) = whole.run(&events);
    let mut stepwise = controller(SizeSource::Reported);
    let mut one_by_one = Vec::new();
    let mut errors = Vec::new();
    for event in &events {
        match stepwise.handle(*event) {
            Ok(commands) => one_by_one.extend(commands),
            Err(error) => errors.push(error),
        }
    }
    assert_eq!(at_once, one_by_one);
    assert_eq!(failures, errors);
    assert_eq!(failures, vec![SurfaceError::Timeout]);
    assert_eq!(whole.phase(), stepwise.phase());
}

#[test]
fn run_of_no_events_changes_nothing() {
    let mut controller = activate(640, 480);
    assert_eq!(controller.run(&Vec::new()), (vec![], vec![]));
    assert_eq!(controller.phase(), active(640, 480));
}

#[test]
fn every_frame_is_acquired_with_the_configuration_applied_last() {
    let mut controller = controller(SizeSource::Reported);
    let events = vec![
        Event::Activated,
        Event::WindowReady(report(300, 200)),
        Event::RedrawRequested,
        ACQUIRED,
        Event::Resized(Size::new(0, 700)),
        Event::Resized(Size::new(900, 700)),
        Event::RedrawRequested,
        ACQUIRED,
        Event::RedrawRequested,
        ACQUIRED,
    ];
    let mut applied = None;
    let mut acquired = 0;
    let mut presented = 0;
    for command in controller.run(&events).0 {
        match command {
            Command::BindSurface(config) | Command::Configure(config) => applied = Some(config),
            Command::AcquireFrame(config) => {
                assert_eq!(applied, Some(config));
                acquired += 1;
            }
            Command::Present(frame) => {
                assert_eq!(Some(frame.extent), applied.map(|config| config.size));
                presented += 1;
            }
            _ => {}
        }
    }
    assert_eq!(acquired, 3);
    assert_eq!(presented, 3);
    assert_eq!(applied, Some(config(900, 700)));
}

#[test]
fn events_leave_title_source_and_context_alone() {
    let mut controller = activate(640, 480);
    controller.handle(Event::Resized(Size::new(5, 5))).unwrap();
    controller.handle(Event::RedrawRequested).unwrap();
    controller.handle(ACQUIRED).unwrap();
    controller.handle(Event::CloseRequested).unwrap();
    assert_eq!(controller.title(), "Meticulous");
    assert_eq!(controller.size_source(), SizeSource::Reported);
    assert_eq!(controller.context(), GraphicsContext::create(true, true).unwrap());
}

#[test]
fn handlers_agree_with_handle() {
    let mut by_method = controller(SizeSource::Reported);
    let mut by_event = controller(SizeSource::Reported);
    assert_eq!(Ok(by_method.activated()), by_event.handle(Event::Activated));
    assert_eq!(
        Ok(by_method.window_ready(report(64, 48))),
        by_event.handle(Event::WindowReady(report(64, 48)))
    );
    assert_eq!(
        Ok(by_method.resized(Size::new(0, 48))),
        by_event.handle(Event::Resized(Size::new(0, 48)))
    );
    assert_eq!(Ok(by_method.redraw_requested()), by_event.handle(Event::RedrawRequested));
    assert_eq!(by_method.frame_answered(AcquireStatus::Acquired), by_event.handle(ACQUIRED));
    assert_eq!(Ok(by_method.close_requested()), by_event.handle(Event::CloseRequested));
    assert_eq!(by_method.phase(), by_event.phase());
}
