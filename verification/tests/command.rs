use meticulous::command::{count, Command, Operation, Resource, Violation};
use meticulous::geometry::Size;
use meticulous::pipeline::{PipelineResources, RenderPass};
use meticulous::surface::{ColorFormat, Frame, PresentMode, SurfaceConfig};

fn config() -> SurfaceConfig {
    SurfaceConfig {
        size: Size::new(4, 3),
        format: ColorFormat { rank: 0 },
        present_mode: PresentMode { rank: 0 },
    }
}

fn frame() -> Frame {
    Frame { extent: Size::new(4, 3), format: ColorFormat { rank: 0 } }
}

#[test]
fn backend_commands_are_told_apart() {
    let pipeline = PipelineResources::build(ColorFormat { rank: 0 }).descriptor();
    for command in [
        Command::OpenWindow,
        Command::BindSurface(config()),
        Command::BuildPipeline(pipeline),
        Command::Configure(config()),
        Command::AcquireFrame(config()),
        Command::Render(RenderPass::triangle()),
        Command::Submit,
        Command::Present(frame()),
    ] {
        assert!(command.touches_gpu());
    }
    let warning = Violation { operation: Operation::Redraw, missing: Resource::Window };
    for command in [
        Command::RequestRedraw,
        Command::Warn(warning),
        Command::ReleaseWindow,
        Command::ExitLoop,
    ] {
        assert!(!command.touches_gpu());
    }
}

#[test]
fn count_finds_every_occurrence() {
    let commands = vec![
        Command::Submit,
        Command::Present(frame()),
        Command::Submit,
        Command::ExitLoop,
        Command::Submit,
    ];
    assert_eq!(count(&commands, Command::Submit), 3);
    assert_eq!(count(&commands, Command::Present(frame())), 1);
    assert_eq!(count(&commands, Command::ExitLoop), 1);
    assert_eq!(count(&commands, Command::OpenWindow), 0);
    assert_eq!(count(&Vec::new(), Command::Submit), 0);
}

#[test]
fn count_tells_payloads_apart() {
    let other = Frame { extent: Size::new(5, 3), format: ColorFormat { rank: 0 } };
    let commands = vec![Command::Present(frame()), Command::Present(other)];
    assert_eq!(count(&commands, Command::Present(frame())), 1);
    assert_eq!(count(&commands, Command::Present(other)), 1);
}

#[test]
fn violations_name_operation_and_resource() {
    let text = |operation, missing| Violation { operation, missing }.message();
    assert_eq!(text(Operation::Redraw, Resource::Window), "redraw requested on closed window");
    assert_eq!(text(Operation::Redraw, Resource::Surface), "redraw requested on no surface");
    assert_eq!(text(Operation::Redraw, Resource::Pipeline), "redraw requested with no pipeline");
    assert_eq!(text(Operation::Resize, Resource::Window), "resize requested on closed window");
    assert_eq!(text(Operation::Resize, Resource::Surface), "resize requested on no surface");
    assert_eq!(text(Operation::Resize, Resource::Pipeline), "resize requested with no pipeline");
}
