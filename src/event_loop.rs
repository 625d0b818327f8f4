use vstd::prelude::*;

use crate::render::{RenderState, Size};

verus! {

/// The keys that the loop tells apart.
#[derive(Clone, Copy, Debug, PartialEq, Eq, Structural)]
pub enum Key {
    Escape,
    Other,
}

/// A key was pressed or released.
#[derive(Clone, Copy, Debug, PartialEq, Eq, Structural)]
pub struct KeyEvent {
    pub pressed: bool,
    pub key: Key,
}

/// An event of the window that the loop draws into.
#[derive(Clone, Copy, Debug, PartialEq, Eq, Structural)]
pub enum WindowEvent {
    /// The window now has this physical size.
    Resized(Size),
    /// The scale factor changed; `inner_size` is the window's size after it.
    ScaleFactorChanged { inner_size: Size },
    CloseRequested,
    KeyboardInput(KeyEvent),
    RedrawRequested,
    /// Any event that the loop does not act on.
    Other,
}

/// Why the surface could not hand out a frame.
#[derive(Clone, Copy, Debug, PartialEq, Eq, Structural)]
pub enum SurfaceError {
    Timeout,
    Outdated,
    /// The surface must be configured again before it can be drawn into.
    Lost,
    OutOfMemory,
}

/// What the loop is told: an event of the window, or the outcome of drawing
/// the frame that the last `Action::Render` asked for.
#[derive(Clone, Copy, Debug)]
pub enum Input {
    Window(WindowEvent),
    Frame(Result<(), SurfaceError>),
}

/// What the program around the loop is to do next.
#[derive(Clone, Copy, Debug, PartialEq, Eq, Structural)]
pub enum Action {
    Nothing,
    /// Configure the surface anew, with the renderer's configuration, whose
    /// dimensions are this size.
    Reconfigure(Size),
    /// Ask the window for a redraw.
    RequestRedraw,
    /// Draw one frame and present it.
    Render,
    /// Report a frame that was skipped for this error; the loop goes on.
    ReportError(SurfaceError),
    /// Leave the event loop: the program ends normally.
    Exit,
    /// Stop the program at once, abnormally, for this error, which nothing
    /// can recover from.
    Abort(SurfaceError),
}

/// The event loop: the renderer's state and whether the loop has ended.
#[derive(Clone, Copy, Debug)]
pub struct Session<F> {
    pub render: RenderState<F>,
    pub exited: bool,
}

/// A key event that ends the loop: the escape key, pressed.
pub open spec fn is_exit_key(k: KeyEvent) -> bool {
    k.pressed && k.key == Key::Escape
}

/// An action after which the loop is over: a normal exit or an abort.
pub open spec fn ends_loop(a: Action) -> bool {
    a == Action::Exit || a is Abort
}

/// The session after `s` resizes its renderer to `size`.
pub open spec fn resized<F>(s: Session<F>, size: Size) -> Session<F> {
    Session {
        render: RenderState {
            size,
            config: crate::render::SurfaceConfig {
                format: s.render.config.format,
                width: size.width,
                height: size.height,
            },
        },
        exited: s.exited,
    }
}

/// The session after `s` is told `i`, and the action that it asks for. Once the
/// loop has ended nothing changes and nothing is asked for.
pub open spec fn next<F>(s: Session<F>, i: Input) -> (Session<F>, Action) {
    if s.exited {
        (s, Action::Nothing)
    } else {
        match i {
            Input::Window(WindowEvent::Resized(size)) => (resized(s, size), Action::Reconfigure(size)),
            Input::Window(WindowEvent::ScaleFactorChanged { inner_size }) => (
                resized(s, inner_size),
                Action::Reconfigure(inner_size),
            ),
            Input::Window(WindowEvent::CloseRequested) => (
                Session { exited: true, ..s },
                Action::Exit,
            ),
            Input::Window(WindowEvent::KeyboardInput(k)) => if is_exit_key(k) {
                (Session { exited: true, ..s }, Action::Exit)
            } else {
                (s, Action::Nothing)
            },
            Input::Window(WindowEvent::RedrawRequested) => (s, Action::Render),
            Input::Window(WindowEvent::Other) => (s, Action::Nothing),
            Input::Frame(Ok(())) => (s, Action::Nothing),
            Input::Frame(Err(SurfaceError::Lost)) => (
                resized(s, s.render.size),
                Action::Reconfigure(s.render.size),
            ),
            Input::Frame(Err(SurfaceError::OutOfMemory)) => (
                Session { exited: true, ..s },
                Action::Abort(SurfaceError::OutOfMemory),
            ),
            Input::Frame(Err(e)) => (s, Action::ReportError(e)),
        }
    }
}

/// The actions that the loop asks for when it starts at `s` and is told
/// `inputs`, one by one.
pub open spec fn actions<F>(s: Session<F>, inputs: Seq<Input>) -> Seq<Action>
    decreases inputs.len(),
{
    if inputs.len() == 0 {
        Seq::empty()
    } else {
        let (t, a) = next(s, inputs[0]);
        seq![a] + actions(t, inputs.drop_first())
    }
}

/// The session after it starts at `s` and is told `inputs`, one by one.
pub open spec fn after<F>(s: Session<F>, inputs: Seq<Input>) -> Session<F>
    decreases inputs.len(),
{
    if inputs.len() == 0 {
        s
    } else {
        after(next(s, inputs[0]).0, inputs.drop_first())
    }
}

impl<F: Copy> Session<F> {
    /// A loop that has not ended, around the renderer `render`.
    pub fn new(render: RenderState<F>) -> (r: Self)
        ensures
            r.render == render,
            !r.exited,
    {
        Session { render, exited: false }
    }

    /// Tells the loop `input` and returns what it asks for.
    ///
    /// A resize, or a change of scale factor, resizes the renderer and asks
    /// for the surface to be configured for the new size. A close request, or
    /// the escape key pressed, ends the loop. A redraw request advances the
    /// renderer and asks for one frame. Of the frame's outcomes, a lost
    /// surface is configured again for the size recorded before; running out
    /// of memory ends the loop and asks for the program to be aborted; any
    /// other error is reported and the frame skipped. After the loop has ended
    /// every input is ignored.
    pub fn step(&mut self, input: Input) -> (action: Action)
        ensures
            (*final(self), action) == next(*old(self), input),
    {
        if self.exited {
            return Action::Nothing;
        }
        match input {
            Input::Window(event) => match event {
                WindowEvent::Resized(size) => {
                    self.render.resize(size);
                    Action::Reconfigure(size)
                },
                WindowEvent::ScaleFactorChanged { inner_size } => {
                    self.render.resize(inner_size);
                    Action::Reconfigure(inner_size)
                },
                WindowEvent::CloseRequested => {
                    self.exited = true;
                    Action::Exit
                },
                WindowEvent::KeyboardInput(key) => {
                    if self.render.input(&key) {
                        Action::RequestRedraw
                    } else if key.pressed && key.key == Key::Escape {
                        self.exited = true;
                        Action::Exit
                    } else {
                        Action::Nothing
                    }
                },
                WindowEvent::RedrawRequested => {
                    self.render.update();
                    Action::Render
                },
                WindowEvent::Other => Action::Nothing,
            },
            Input::Frame(outcome) => match outcome {
                Ok(()) => Action::Nothing,
                Err(SurfaceError::Lost) => {
                    let size = self.render.size;
                    self.render.resize(size);
                    Action::Reconfigure(size)
                },
                Err(SurfaceError::OutOfMemory) => {
                    self.exited = true;
                    Action::Abort(SurfaceError::OutOfMemory)
                },
                Err(e) => Action::ReportError(e),
            },
        }
    }
}

} // verus!
