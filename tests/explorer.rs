use mandelbrot_explorer::controller::{Action, Controller, FrameError, Input, Key, Response};
use mandelbrot_explorer::iterations::{
    decrease_iterations, increase_iterations, ITERATION_STEP, MAX_ITERATIONS, MIN_ITERATIONS,
};
use mandelbrot_explorer::uniform::{UniformBlock, UNIFORM_SIZE};

fn press(key: Key) -> Input {
    Input::Key { key, pressed: true }
}

#[test]
fn arrow_up_adds_one_step() {
    assert_eq!(increase_iterations(128), 256);
    assert_eq!(increase_iterations(4096), 4224);
}

#[test]
fn arrow_up_holds_at_the_largest_budget() {
    assert_eq!(increase_iterations(MAX_ITERATIONS), MAX_ITERATIONS);
    assert_eq!(increase_iterations(MAX_ITERATIONS - 128), MAX_ITERATIONS);
}

#[test]
fn arrow_down_removes_one_step() {
    assert_eq!(decrease_iterations(384), 256);
    assert_eq!(decrease_iterations(256), 128);
}

#[test]
fn arrow_down_at_floor_stays() {
    assert_eq!(decrease_iterations(128), 128);
    let mut c = Controller::new(800, 600);
    assert_eq!(c.max_iterations(), 128);
    let r = c.handle(press(Key::ArrowDown));
    assert_eq!(r, Response { action: Action::PushUniform, consumed: true });
    assert_eq!(c.max_iterations(), 128);
}

#[test]
fn presses_keep_budget_a_multiple_of_the_step() {
    let mut c = Controller::new(800, 600);
    let keys = [
        Key::ArrowUp, Key::ArrowUp, Key::ArrowDown, Key::ArrowDown, Key::ArrowDown,
        Key::ArrowUp, Key::ArrowUp, Key::ArrowUp, Key::ArrowDown,
    ];
    let expected = [256, 384, 256, 128, 128, 256, 384, 512, 384];
    for (k, e) in keys.iter().zip(expected.iter()) {
        c.handle(press(*k));
        let n = c.max_iterations();
        assert_eq!(n, *e);
        assert!(n >= MIN_ITERATIONS);
        assert_eq!(n % ITERATION_STEP, 0);
    }
}

#[test]
fn key_release_changes_nothing() {
    let mut c = Controller::new(800, 600);
    let r = c.handle(Input::Key { key: Key::ArrowUp, pressed: false });
    assert_eq!(r, Response { action: Action::Nothing, consumed: false });
    assert_eq!(c.max_iterations(), 128);
}

#[test]
fn drag_toggles_with_left_button_and_cursor_leave() {
    let mut c = Controller::new(800, 600);
    assert!(!c.dragging());
    let r = c.handle(Input::CursorMoved);
    assert_eq!(r, Response { action: Action::Nothing, consumed: false });
    let r = c.handle(Input::LeftButton { pressed: true });
    assert_eq!(r, Response { action: Action::Nothing, consumed: false });
    assert!(c.dragging());
    let r = c.handle(Input::CursorMoved);
    assert_eq!(r, Response { action: Action::Pan, consumed: true });
    c.handle(Input::LeftButton { pressed: false });
    assert!(!c.dragging());
    c.handle(Input::LeftButton { pressed: true });
    let r = c.handle(Input::CursorLeft);
    assert_eq!(r, Response { action: Action::Nothing, consumed: false });
    assert!(!c.dragging());
    let r = c.handle(Input::CursorMoved);
    assert_eq!(r.action, Action::Nothing);
}

#[test]
fn wheel_zooms_and_is_consumed() {
    let mut c = Controller::new(800, 600);
    let before = c;
    let r = c.handle(Input::Wheel);
    assert_eq!(r, Response { action: Action::Zoom, consumed: true });
    assert_eq!(c, before);
}

#[test]
fn resize_records_size() {
    let mut c = Controller::new(800, 600);
    let r = c.handle(Input::Resized { width: 1024, height: 768 });
    assert_eq!(r.action, Action::Resize { width: 1024, height: 768 });
    assert_eq!((c.width(), c.height()), (1024, 768));
    assert_eq!(c.max_iterations(), 128);
}

#[test]
fn zero_sized_resize_is_ignored() {
    let mut c = Controller::new(800, 600);
    c.handle(press(Key::ArrowUp));
    let before = c;
    for (w, h) in [(0, 600), (800, 0), (0, 0)] {
        let r = c.handle(Input::Resized { width: w, height: h });
        assert_eq!(r, Response { action: Action::Nothing, consumed: false });
        assert_eq!(c, before);
    }
}

#[test]
fn escape_and_close_exit() {
    let mut c = Controller::new(800, 600);
    assert_eq!(c.handle(press(Key::Escape)).action, Action::Exit);
    assert_eq!(c.handle(Input::CloseRequested).action, Action::Exit);
    assert_eq!(c.handle(Input::Key { key: Key::Escape, pressed: false }).action, Action::Nothing);
    assert_eq!(c.handle(press(Key::Other)).action, Action::Nothing);
    assert_eq!(c.handle(Input::Other).action, Action::Nothing);
}

#[test]
fn redraw_renders() {
    let mut c = Controller::new(800, 600);
    assert_eq!(c.handle(Input::RedrawRequested), Response { action: Action::Render, consumed: false });
}

#[test]
fn lost_surface_reconfigures_at_last_size() {
    let mut c = Controller::new(800, 600);
    assert_eq!(c.after_frame(Err(FrameError::Lost)), Action::Resize { width: 800, height: 600 });
    c.handle(Input::Resized { width: 640, height: 480 });
    c.handle(Input::Resized { width: 0, height: 480 });
    let a = c.after_frame(Err(FrameError::Lost));
    assert_eq!(a, Action::Resize { width: 640, height: 480 });
    assert_ne!(a, Action::Exit);
    assert_eq!(c.handle(Input::RedrawRequested).action, Action::Render);
}

#[test]
fn frame_outcomes() {
    let c = Controller::new(800, 600);
    assert_eq!(c.after_frame(Ok(())), Action::Nothing);
    assert_eq!(c.after_frame(Err(FrameError::OutOfMemory)), Action::Exit);
    assert_eq!(c.after_frame(Err(FrameError::Timeout)), Action::Skip);
    assert_eq!(c.after_frame(Err(FrameError::Outdated)), Action::Skip);
}

#[test]
fn uniform_bytes_follow_the_layout() {
    let u = UniformBlock {
        origin_x: (-2.0f64).to_bits(),
        origin_y: (-1.0f64).to_bits(),
        height: 2.0f64.to_bits(),
        aspect_ratio: (800.0f64 / 600.0f64).to_bits(),
        max_iterations: 128,
    };
    let b = u.to_bytes();
    assert_eq!(b.len(), UNIFORM_SIZE);
    let mut expected = Vec::new();
    expected.extend_from_slice(&(-2.0f64).to_le_bytes());
    expected.extend_from_slice(&(-1.0f64).to_le_bytes());
    expected.extend_from_slice(&2.0f64.to_le_bytes());
    expected.extend_from_slice(&(800.0f64 / 600.0f64).to_le_bytes());
    expected.extend_from_slice(&128u32.to_le_bytes());
    expected.extend_from_slice(&[0, 0, 0, 0]);
    assert_eq!(b, expected);
}

#[test]
fn uniform_bytes_of_known_values() {
    let u = UniformBlock {
        origin_x: 0x0102030405060708,
        origin_y: 0,
        height: u64::MAX,
        aspect_ratio: 1,
        max_iterations: 0x0A0B0C0D,
    };
    let b = u.to_bytes();
    assert_eq!(&b[0..8], &[8, 7, 6, 5, 4, 3, 2, 1]);
    assert_eq!(&b[8..16], &[0; 8]);
    assert_eq!(&b[16..24], &[255; 8]);
    assert_eq!(&b[24..32], &[1, 0, 0, 0, 0, 0, 0, 0]);
    assert_eq!(&b[32..36], &[0x0D, 0x0C, 0x0B, 0x0A]);
    assert_eq!(&b[36..40], &[0, 0, 0, 0]);
}
