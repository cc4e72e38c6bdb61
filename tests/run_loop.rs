use gpui_linux::platform::{display_ids, display_screen};
use gpui_linux::window::{classify_bounds, ConfigureOutcome};
use gpui_linux::{Bounds, LoopStep, RunLoop, WindowBounds, WindowGeometry};

#[test]
fn loop_launches_then_alternates_until_quit() {
    let mut run = RunLoop::new();
    assert_eq!(run.next(true), LoopStep::Launch);
    assert_eq!(run.next(false), LoopStep::WaitForEvent);
    assert_eq!(run.next(true), LoopStep::DrainOneTask);
    assert!(!run.is_finished());
    assert_eq!(run.next(false), LoopStep::WaitForEvent);
    assert_eq!(run.next(false), LoopStep::DrainOneTask);
    assert_eq!(run.next(true), LoopStep::Exit);
    assert!(run.is_finished());
    assert_eq!(run.next(false), LoopStep::Exit);
}

#[test]
fn displays_enumerate_screens() {
    assert_eq!(display_ids(3), vec![0, 1, 2]);
    assert!(display_ids(0).is_empty());
    assert_eq!(display_screen(1, 2), Some(1));
    assert_eq!(display_screen(2, 2), None);
}

#[test]
fn configure_reports_resize_and_move() {
    let mut g = WindowGeometry::new(Bounds { x: 0, y: 0, width: 100, height: 100 });
    let r = g.configure(Bounds { x: 0, y: 0, width: 200, height: 100 });
    assert_eq!(r, ConfigureOutcome { resized: true, moved: false });
    let r = g.configure(Bounds { x: 5, y: 0, width: 200, height: 100 });
    assert_eq!(r, ConfigureOutcome { resized: false, moved: true });
    let r = g.configure(Bounds { x: 5, y: 0, width: 200, height: 100 });
    assert_eq!(r, ConfigureOutcome { resized: false, moved: false });
    assert!(g.resize(300, 100));
    assert!(!g.resize(300, 100));
    assert_eq!(g.content_size(), (300, 100));
    assert_eq!(g.bounds, Bounds { x: 5, y: 0, width: 300, height: 100 });
}

#[test]
fn bounds_classification() {
    assert!(matches!(classify_bounds(true, true, Some(1)), WindowBounds::Maximized));
    assert!(matches!(classify_bounds(false, true, Some(1)), WindowBounds::Fullscreen));
    assert!(matches!(classify_bounds(false, false, Some(1)), WindowBounds::Fixed(1)));
    assert!(matches!(classify_bounds::<u8>(false, false, None), WindowBounds::Maximized));
}
