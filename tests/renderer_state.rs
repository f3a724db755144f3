use textured_mesh::mesh::Mesh;
use textured_mesh::state::{
    Channel, ClearColor, FrameError, LoopAction, PresentMode, Size, State, SurfaceConfig,
    WindowEvent,
};

fn size(width: u32, height: u32) -> Size {
    Size { width, height }
}

fn ch(num: i64, den: u32) -> Channel {
    Channel { num, den }
}

fn fresh(width: u32, height: u32) -> State {
    State::new(size(width, height), &Mesh::pentagon())
}

#[test]
fn new_configures_surface_to_window_size_with_fifo() {
    let s = fresh(800, 600);
    assert_eq!(s.size, size(800, 600));
    assert_eq!(s.config, SurfaceConfig { width: 800, height: 600, present_mode: PresentMode::Fifo });
    assert_eq!(s.num_indices, 9);
    assert_eq!(s.clear_color, ClearColor { r: ch(0, 1), g: ch(0, 1), b: ch(0, 1), a: ch(1, 1) });
}

#[test]
fn resize_then_render_uses_new_size() {
    let mut s = fresh(800, 600);
    assert!(s.resize(size(1024, 768)));
    assert_eq!(s.size, size(1024, 768));
    assert_eq!((s.config.width, s.config.height), (1024, 768));
    let plan = s.render();
    assert_eq!((plan.width, plan.height), (1024, 768));
}

#[test]
fn resize_with_zero_side_is_ignored() {
    let mut s = fresh(800, 600);
    let before = s;
    assert!(!s.resize(size(0, 300)));
    assert_eq!(s, before);
    assert!(!s.resize(size(300, 0)));
    assert_eq!(s, before);
    assert!(!s.resize(size(0, 0)));
    assert_eq!(s, before);
}

#[test]
fn resize_to_same_size_changes_nothing() {
    let mut s = fresh(800, 600);
    let before = s;
    assert!(s.resize(size(800, 600)));
    assert_eq!(s, before);
}

#[test]
fn cursor_move_sets_clear_color_and_is_consumed() {
    let mut s = fresh(800, 600);
    assert!(s.input(&WindowEvent::CursorMoved { x: 200, y: 150 }));
    assert_eq!(s.clear_color, ClearColor { r: ch(200, 800), g: ch(150, 600), b: ch(1, 1), a: ch(1, 1) });
    let plan = s.render();
    assert_eq!(plan.clear, s.clear_color);
}

#[test]
fn other_events_are_not_consumed() {
    let mut s = fresh(800, 600);
    let before = s;
    assert!(!s.input(&WindowEvent::CloseRequested));
    assert!(!s.input(&WindowEvent::EscapePressed));
    assert!(!s.input(&WindowEvent::Resized(size(10, 10))));
    assert!(!s.input(&WindowEvent::Other));
    assert_eq!(s, before);
}

#[test]
fn update_changes_nothing() {
    let mut s = fresh(800, 600);
    s.input(&WindowEvent::CursorMoved { x: 1, y: 2 });
    let before = s;
    s.update();
    assert_eq!(s, before);
}

#[test]
fn render_draws_all_indices_once() {
    let s = fresh(640, 480);
    let plan = s.render();
    assert_eq!(plan.first_index, 0);
    assert_eq!(plan.index_count, 9);
    assert_eq!(plan.base_vertex, 0);
    assert_eq!(plan.first_instance, 0);
    assert_eq!(plan.instance_count, 1);
    assert_eq!((plan.width, plan.height), (640, 480));
}

#[test]
fn close_and_escape_exit() {
    let mut s = fresh(800, 600);
    assert_eq!(s.handle_event(&WindowEvent::CloseRequested), LoopAction::Exit);
    assert_eq!(s.handle_event(&WindowEvent::EscapePressed), LoopAction::Exit);
    assert_eq!(s.handle_event(&WindowEvent::Other), LoopAction::Continue);
}

#[test]
fn resize_events_reconfigure_the_surface() {
    let mut s = fresh(800, 600);
    let expected = SurfaceConfig { width: 300, height: 200, present_mode: PresentMode::Fifo };
    assert_eq!(s.handle_event(&WindowEvent::Resized(size(300, 200))), LoopAction::Reconfigure(expected));
    let expected = SurfaceConfig { width: 600, height: 400, present_mode: PresentMode::Fifo };
    assert_eq!(
        s.handle_event(&WindowEvent::ScaleFactorChanged(size(600, 400))),
        LoopAction::Reconfigure(expected)
    );
    assert_eq!(s.handle_event(&WindowEvent::Resized(size(0, 400))), LoopAction::Continue);
    assert_eq!(s.size, size(600, 400));
}

#[test]
fn cursor_event_is_handled_by_the_renderer() {
    let mut s = fresh(100, 50);
    assert_eq!(s.handle_event(&WindowEvent::CursorMoved { x: 99, y: 0 }), LoopAction::Continue);
    assert_eq!(s.clear_color.r, ch(99, 100));
    assert_eq!(s.clear_color.g, ch(0, 50));
}

#[test]
fn frame_errors_follow_the_policy() {
    let mut s = fresh(800, 600);
    let config = s.config;
    assert_eq!(s.after_frame(None), LoopAction::Continue);
    assert_eq!(s.after_frame(Some(FrameError::Lost)), LoopAction::Reconfigure(config));
    assert_eq!(s.after_frame(Some(FrameError::OutOfMemory)), LoopAction::Exit);
    assert_eq!(s.after_frame(Some(FrameError::Outdated)), LoopAction::SkipFrame(FrameError::Outdated));
    assert_eq!(s.after_frame(Some(FrameError::Timeout)), LoopAction::SkipFrame(FrameError::Timeout));
    assert_eq!(s.config, config);
}

#[test]
fn lost_surface_on_zero_sized_window_waits_for_a_resize() {
    let mut s = fresh(0, 0);
    assert_eq!(s.after_frame(Some(FrameError::Lost)), LoopAction::Continue);
}

#[test]
fn pentagon_scenario_render_lost_then_out_of_memory() {
    let mut s = fresh(800, 600);
    s.update();
    let first = s.render();
    assert_eq!(first.index_count, 9);
    assert_eq!(first.instance_count, 1);
    assert_eq!(s.after_frame(None), LoopAction::Continue);
    s.update();
    let _second = s.render();
    let retry = s.after_frame(Some(FrameError::Lost));
    assert_eq!(retry, LoopAction::Reconfigure(s.config));
    assert_eq!((s.config.width, s.config.height), (800, 600));
    let third = s.render();
    assert_eq!(third, first);
    assert_eq!(s.after_frame(Some(FrameError::OutOfMemory)), LoopAction::Exit);
}

#[test]
fn cursor_outside_window_is_clamped_to_the_edge() {
    let mut s = fresh(800, 600);
    assert!(s.input(&WindowEvent::CursorMoved { x: -1, y: 900 }));
    assert_eq!(s.clear_color, ClearColor { r: ch(0, 800), g: ch(600, 600), b: ch(1, 1), a: ch(1, 1) });
    assert!(s.input(&WindowEvent::CursorMoved { x: 5000, y: -30 }));
    assert_eq!(s.clear_color.r, ch(800, 800));
    assert_eq!(s.clear_color.g, ch(0, 600));
}

#[test]
fn cursor_in_zero_sized_window_gives_zero_channels() {
    let mut s = fresh(0, 0);
    assert!(s.input(&WindowEvent::CursorMoved { x: 3, y: 4 }));
    assert_eq!(s.clear_color, ClearColor { r: ch(0, 1), g: ch(0, 1), b: ch(1, 1), a: ch(1, 1) });
}

#[test]
fn clear_color_stays_in_unit_range() {
    let mut s = fresh(640, 480);
    for &(x, y) in [(-100i64, -100i64), (0, 0), (639, 479), (640, 480), (100000, 5), (i64::MIN, i64::MAX)].iter() {
        s.input(&WindowEvent::CursorMoved { x, y });
        for c in [s.clear_color.r, s.clear_color.g, s.clear_color.b, s.clear_color.a].iter() {
            assert!(c.den > 0);
            assert!(c.num >= 0 && c.num <= c.den as i64);
        }
    }
}

#[test]
fn surface_config_only_for_a_surface_with_size() {
    let s = fresh(800, 600);
    assert_eq!(s.surface_config(), Some(SurfaceConfig { width: 800, height: 600, present_mode: PresentMode::Fifo }));
    assert_eq!(fresh(0, 600).surface_config(), None);
    assert_eq!(fresh(800, 0).surface_config(), None);
}
