use pbr_pipeline::events::loop_action;
use pbr_pipeline::events::LoopAction;
use pbr_pipeline::events::LoopEvent;
use pbr_pipeline::events::SurfaceConfig;
use pbr_pipeline::events::WindowEventKind;

#[test]
fn redraw_renders_and_idle_requests_redraw() {
    assert_eq!(loop_action(LoopEvent::RedrawRequested), LoopAction::Render);
    assert_eq!(loop_action(LoopEvent::MainEventsCleared), LoopAction::RequestRedraw);
}

#[test]
fn close_and_escape_exit() {
    assert_eq!(
        loop_action(LoopEvent::Window {
            event: WindowEventKind::CloseRequested,
            main_window: true
        }),
        LoopAction::Exit
    );
    assert_eq!(
        loop_action(LoopEvent::Window {
            event: WindowEventKind::EscapePressed,
            main_window: true
        }),
        LoopAction::Exit
    );
}

#[test]
fn size_changes_resize_the_swap_chain() {
    assert_eq!(
        loop_action(LoopEvent::Window {
            event: WindowEventKind::Resized { width: 800, height: 600 },
            main_window: true
        }),
        LoopAction::Resize { width: 800, height: 600 }
    );
    assert_eq!(
        loop_action(LoopEvent::Window {
            event: WindowEventKind::ScaleFactorChanged { width: 1920, height: 1080 },
            main_window: true
        }),
        LoopAction::Resize { width: 1920, height: 1080 }
    );
}

#[test]
fn other_window_events_reach_the_scene() {
    assert_eq!(
        loop_action(LoopEvent::Window { event: WindowEventKind::Other, main_window: true }),
        LoopAction::Forward
    );
}

#[test]
fn foreign_window_events_are_ignored() {
    assert_eq!(
        loop_action(LoopEvent::Window {
            event: WindowEventKind::CloseRequested,
            main_window: false
        }),
        LoopAction::Ignore
    );
    assert_eq!(loop_action(LoopEvent::Other), LoopAction::Ignore);
}

#[test]
fn resize_updates_the_surface_config() {
    let mut config = SurfaceConfig { width: 1920, height: 1080 };
    config.resize(1280, 720);
    assert_eq!(config, SurfaceConfig { width: 1280, height: 720 });
}
