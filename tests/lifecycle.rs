use hello_triangle::event_loop::{Action, Input, Key, KeyEvent, Session, SurfaceError, WindowEvent};
use hello_triangle::render::{RenderState, Size};

fn size(width: u32, height: u32) -> Size {
    Size { width, height }
}

fn running() -> Session<u32> {
    let formats = [7u32, 3, 9];
    Session::new(RenderState::new(&formats, size(800, 800)).unwrap())
}

fn escape(pressed: bool) -> Input {
    Input::Window(WindowEvent::KeyboardInput(KeyEvent { pressed, key: Key::Escape }))
}

#[test]
fn new_takes_the_first_format_and_the_window_size() {
    let s = RenderState::new(&[7u32, 3, 9], size(800, 600)).unwrap();
    assert_eq!(s.config.format, 7);
    assert_eq!(s.config.width, 800);
    assert_eq!(s.config.height, 600);
    assert_eq!(s.size, size(800, 600));
}

#[test]
fn new_without_formats_gives_none() {
    let formats: [u32; 0] = [];
    assert!(RenderState::new(&formats, size(800, 800)).is_none());
}

#[test]
fn resize_sets_the_configured_dimensions() {
    let mut s = RenderState::new(&[5u32], size(800, 800)).unwrap();
    s.resize(size(1024, 768));
    assert_eq!(s.size, size(1024, 768));
    assert_eq!((s.config.width, s.config.height), (1024, 768));
    assert_eq!(s.config.format, 5);
    s.resize(size(1, 1));
    assert_eq!((s.config.width, s.config.height), (1, 1));
}

#[test]
fn resize_to_zero_is_taken_as_it_is() {
    let mut s = RenderState::new(&[5u32], size(800, 800)).unwrap();
    s.resize(size(0, 0));
    assert_eq!((s.config.width, s.config.height), (0, 0));
}

#[test]
fn resize_to_the_largest_size() {
    let mut s = RenderState::new(&[5u32], size(800, 800)).unwrap();
    s.resize(size(u32::MAX, u32::MAX));
    assert_eq!((s.config.width, s.config.height), (u32::MAX, u32::MAX));
}

#[test]
fn input_is_never_handled() {
    let mut s = RenderState::new(&[5u32], size(800, 800)).unwrap();
    for key in [Key::Escape, Key::Other] {
        for pressed in [true, false] {
            assert!(!s.input(&KeyEvent { pressed, key }));
        }
    }
    assert_eq!(s.size, size(800, 800));
}

#[test]
fn update_changes_nothing() {
    let mut s = RenderState::new(&[5u32], size(640, 480)).unwrap();
    s.update();
    assert_eq!(s.size, size(640, 480));
    assert_eq!((s.config.format, s.config.width, s.config.height), (5, 640, 480));
}

#[test]
fn redraw_after_start_draws_one_frame() {
    let mut s = running();
    assert_eq!(s.step(Input::Window(WindowEvent::RedrawRequested)), Action::Render);
    assert_eq!(s.step(Input::Frame(Ok(()))), Action::Nothing);
    assert!(!s.exited);
    assert_eq!(s.render.size, size(800, 800));
}

#[test]
fn resized_event_reconfigures_the_surface() {
    let mut s = running();
    assert_eq!(s.step(Input::Window(WindowEvent::Resized(size(300, 200)))), Action::Reconfigure(size(300, 200)));
    assert_eq!((s.render.config.width, s.render.config.height), (300, 200));
    assert_eq!(s.render.config.format, 7);
}

#[test]
fn scale_factor_change_resizes_to_the_inner_size() {
    let mut s = running();
    let inner_size = size(1600, 1600);
    assert_eq!(s.step(Input::Window(WindowEvent::ScaleFactorChanged { inner_size })), Action::Reconfigure(inner_size));
    assert_eq!(s.render.size, inner_size);
}

#[test]
fn lost_surface_is_reconfigured_with_the_recorded_size() {
    let mut s = running();
    s.step(Input::Window(WindowEvent::Resized(size(1024, 512))));
    assert_eq!(s.step(Input::Window(WindowEvent::RedrawRequested)), Action::Render);
    assert_eq!(s.step(Input::Frame(Err(SurfaceError::Lost))), Action::Reconfigure(size(1024, 512)));
    assert_eq!((s.render.config.width, s.render.config.height), (1024, 512));
    assert!(!s.exited);
    assert_eq!(s.step(Input::Window(WindowEvent::RedrawRequested)), Action::Render);
}

#[test]
fn out_of_memory_aborts_and_draws_nothing_more() {
    let mut s = running();
    assert_eq!(s.step(Input::Frame(Err(SurfaceError::OutOfMemory))), Action::Abort(SurfaceError::OutOfMemory));
    assert!(s.exited);
    assert_eq!(s.step(Input::Window(WindowEvent::RedrawRequested)), Action::Nothing);
    assert_eq!(s.step(Input::Window(WindowEvent::Resized(size(10, 10)))), Action::Nothing);
    assert_eq!(s.render.size, size(800, 800));
}

#[test]
fn other_surface_errors_are_reported_and_skipped() {
    let mut s = running();
    assert_eq!(s.step(Input::Frame(Err(SurfaceError::Timeout))), Action::ReportError(SurfaceError::Timeout));
    assert_eq!(s.step(Input::Frame(Err(SurfaceError::Outdated))), Action::ReportError(SurfaceError::Outdated));
    assert!(!s.exited);
    assert_eq!(s.step(Input::Window(WindowEvent::RedrawRequested)), Action::Render);
}

#[test]
fn close_request_exits_once() {
    let mut s = running();
    assert_eq!(s.step(Input::Window(WindowEvent::CloseRequested)), Action::Exit);
    assert_eq!(s.step(Input::Window(WindowEvent::CloseRequested)), Action::Nothing);
    assert_eq!(s.step(escape(true)), Action::Nothing);
    assert_eq!(s.step(Input::Frame(Err(SurfaceError::Lost))), Action::Nothing);
}

#[test]
fn escape_press_exits_once() {
    let mut s = running();
    assert_eq!(s.step(escape(true)), Action::Exit);
    assert_eq!(s.step(escape(true)), Action::Nothing);
    assert_eq!(s.step(Input::Window(WindowEvent::RedrawRequested)), Action::Nothing);
}

#[test]
fn escape_release_and_other_keys_are_ignored() {
    let mut s = running();
    assert_eq!(s.step(escape(false)), Action::Nothing);
    let other = KeyEvent { pressed: true, key: Key::Other };
    assert_eq!(s.step(Input::Window(WindowEvent::KeyboardInput(other))), Action::Nothing);
    assert_eq!(s.step(Input::Window(WindowEvent::Other)), Action::Nothing);
    assert!(!s.exited);
}
