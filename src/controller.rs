use vstd::prelude::*;
use crate::iterations::{
    decrease_iterations,
    increase_iterations,
    lowered,
    raised,
    valid_iterations,
    MIN_ITERATIONS,
};

verus! {

/// Keys the explorer tells apart.
#[derive(Clone, Copy, Debug, PartialEq, Eq, Structural)]
pub enum Key {
    ArrowUp,
    ArrowDown,
    Escape,
    Other,
}

/// A window event, reduced to what the explorer's decisions read. Pointer
/// positions and scroll amounts stay with the caller, which applies the
/// pan and zoom formulas when told to.
#[derive(Clone, Copy, Debug, PartialEq, Eq, Structural)]
pub enum Input {
    CursorLeft,
    LeftButton { pressed: bool },
    CursorMoved,
    Wheel,
    Key { key: Key, pressed: bool },
    Resized { width: u32, height: u32 },
    CloseRequested,
    RedrawRequested,
    Other,
}

/// What the caller must do after an event or a frame attempt.
#[derive(Clone, Copy, Debug, PartialEq, Eq, Structural)]
pub enum Action {
    /// Nothing to do.
    Nothing,
    /// Shift the origin by the pointer's movement since the last sample,
    /// then push the uniform block.
    Pan,
    /// Zoom about the cursor by the wheel's amount, then push the uniform block.
    Zoom,
    /// The iteration budget changed: push the uniform block.
    PushUniform,
    /// Reconfigure the surface at this size, set the aspect ratio to
    /// width / height and push the uniform block.
    Resize { width: u32, height: u32 },
    /// Acquire a frame and draw it.
    Render,
    /// Skip this frame after logging its failure; keep running.
    Skip,
    /// Close the window and end the program.
    Exit,
}

/// Why a frame could not be acquired.
#[derive(Clone, Copy, Debug, PartialEq, Eq, Structural)]
pub enum FrameError {
    Timeout,
    Outdated,
    Lost,
    OutOfMemory,
}

/// The decision taken on one event: what to do, and whether the event was
/// consumed (so that no default handling applies to it).
#[derive(Clone, Copy, Debug, PartialEq, Eq, Structural)]
pub struct Response {
    pub action: Action,
    pub consumed: bool,
}

/// Decision state of the explorer: whether a drag is under way, the
/// iteration budget and the last valid window size.
#[derive(Clone, Copy, Debug, PartialEq, Eq, Structural)]
pub struct Controller {
    dragging: bool,
    max_iterations: u32,
    width: u32,
    height: u32,
}

/// The controller's state as plain values.
pub struct ControllerView {
    pub dragging: bool,
    pub max_iterations: u32,
    pub width: u32,
    pub height: u32,
}

/// Response to an event, and state after it, as a function of the state
/// before it.
pub open spec fn respond(s: ControllerView, input: Input) -> (Response, ControllerView) {
    let same = ControllerView { ..s };
    match input {
        Input::CursorLeft => (
            Response { action: Action::Nothing, consumed: false },
            ControllerView { dragging: false, ..s },
        ),
        Input::LeftButton { pressed } => (
            Response { action: Action::Nothing, consumed: false },
            ControllerView { dragging: pressed, ..s },
        ),
        Input::CursorMoved => if s.dragging {
            (Response { action: Action::Pan, consumed: true }, same)
        } else {
            (Response { action: Action::Nothing, consumed: false }, same)
        },
        Input::Wheel => (Response { action: Action::Zoom, consumed: true }, same),
        Input::Key { key, pressed } => if pressed && key == Key::ArrowUp {
            (
                Response { action: Action::PushUniform, consumed: true },
                ControllerView { max_iterations: raised(s.max_iterations), ..s },
            )
        } else if pressed && key == Key::ArrowDown {
            (
                Response { action: Action::PushUniform, consumed: true },
                ControllerView { max_iterations: lowered(s.max_iterations), ..s },
            )
        } else if pressed && key == Key::Escape {
            (Response { action: Action::Exit, consumed: false }, same)
        } else {
            (Response { action: Action::Nothing, consumed: false }, same)
        },
        Input::Resized { width, height } => if width > 0 && height > 0 {
            (
                Response { action: Action::Resize { width, height }, consumed: false },
                ControllerView { width, height, ..s },
            )
        } else {
            (Response { action: Action::Nothing, consumed: false }, same)
        },
        Input::CloseRequested => (Response { action: Action::Exit, consumed: false }, same),
        Input::RedrawRequested => (Response { action: Action::Render, consumed: false }, same),
        Input::Other => (Response { action: Action::Nothing, consumed: false }, same),
    }
}

/// What follows a frame attempt made at the last valid size `(w, h)`.
pub open spec fn frame_action(w: u32, h: u32, outcome: Result<(), FrameError>) -> Action {
    match outcome {
        Ok(()) => Action::Nothing,
        Err(FrameError::Lost) => Action::Resize { width: w, height: h },
        Err(FrameError::OutOfMemory) => Action::Exit,
        Err(_) => Action::Skip,
    }
}

impl Controller {
    pub closed spec fn view(&self) -> ControllerView {
        ControllerView {
            dragging: self.dragging,
            max_iterations: self.max_iterations,
            width: self.width,
            height: self.height,
        }
    }

    /// The state's invariant: a valid budget and a window size with no zero side.
    pub closed spec fn wf(&self) -> bool {
        valid_iterations(self.max_iterations) && self.width > 0 && self.height > 0
    }

    /// The state at startup for a window of the given size: not dragging,
    /// the minimum budget.
    pub fn new(width: u32, height: u32) -> (r: Controller)
        requires
            width > 0,
            height > 0,
        ensures
            r.wf(),
            r.view() == (ControllerView {
                dragging: false,
                max_iterations: MIN_ITERATIONS,
                width,
                height,
            }),
    {
        Controller { dragging: false, max_iterations: MIN_ITERATIONS, width, height }
    }

    pub fn dragging(&self) -> (r: bool)
        ensures
            r == self.view().dragging,
    {
        self.dragging
    }

    pub fn max_iterations(&self) -> (r: u32)
        ensures
            r == self.view().max_iterations,
    {
        self.max_iterations
    }

    pub fn width(&self) -> (r: u32)
        ensures
            r == self.view().width,
    {
        self.width
    }

    pub fn height(&self) -> (r: u32)
        ensures
            r == self.view().height,
    {
        self.height
    }

    /// Decides what an event does and updates the state.
    pub fn handle(&mut self, input: Input) -> (r: Response)
        requires
            old(self).wf(),
        ensures
            final(self).wf(),
            r == respond(old(self).view(), input).0,
            final(self).view() == respond(old(self).view(), input).1,
    {
        match input {
            Input::CursorLeft => {
                self.dragging = false;
                Response { action: Action::Nothing, consumed: false }
            },
            Input::LeftButton { pressed } => {
                self.dragging = pressed;
                Response { action: Action::Nothing, consumed: false }
            },
            Input::CursorMoved => {
                if self.dragging {
                    Response { action: Action::Pan, consumed: true }
                } else {
                    Response { action: Action::Nothing, consumed: false }
                }
            },
            Input::Wheel => Response { action: Action::Zoom, consumed: true },
            Input::Key { key, pressed } => {
                if pressed && key == Key::ArrowUp {
                    self.max_iterations = increase_iterations(self.max_iterations);
                    Response { action: Action::PushUniform, consumed: true }
                } else if pressed && key == Key::ArrowDown {
                    self.max_iterations = decrease_iterations(self.max_iterations);
                    Response { action: Action::PushUniform, consumed: true }
                } else if pressed && key == Key::Escape {
                    Response { action: Action::Exit, consumed: false }
                } else {
                    Response { action: Action::Nothing, consumed: false }
                }
            },
            Input::Resized { width, height } => {
                if width > 0 && height > 0 {
                    self.width = width;
                    self.height = height;
                    Response { action: Action::Resize { width, height }, consumed: false }
                } else {
                    Response { action: Action::Nothing, consumed: false }
                }
            },
            Input::CloseRequested => Response { action: Action::Exit, consumed: false },
            Input::RedrawRequested => Response { action: Action::Render, consumed: false },
            Input::Other => Response { action: Action::Nothing, consumed: false },
        }
    }

    /// Decides what follows a frame attempt: nothing after a drawn frame, a
    /// reconfiguration at the last valid size after a lost surface, the end
    /// of the program when memory ran out, and a skipped frame otherwise.
    pub fn after_frame(&self, outcome: Result<(), FrameError>) -> (r: Action)
        requires
            self.wf(),
        ensures
            r == frame_action(self.view().width, self.view().height, outcome),
    {
        match outcome {
            Ok(()) => Action::Nothing,
            Err(FrameError::Lost) => Action::Resize { width: self.width, height: self.height },
            Err(FrameError::OutOfMemory) => Action::Exit,
            Err(_) => Action::Skip,
        }
    }
}

/// A resize with a zero side changes nothing: the state stays as it was and
/// nothing is to be done.
pub proof fn lemma_zero_resize_ignored(s: ControllerView, width: u32, height: u32)
    requires
        width == 0 || height == 0,
    ensures
        respond(s, Input::Resized { width, height }).0 == (Response {
            action: Action::Nothing,
            consumed: false,
        }),
        respond(s, Input::Resized { width, height }).1 == s,
{
}

/// A resize with no zero side records the new size and asks for a
/// reconfiguration at it, leaving the drag and the budget as they were.
pub proof fn lemma_resize_recorded(s: ControllerView, width: u32, height: u32)
    requires
        width > 0,
        height > 0,
    ensures
        respond(s, Input::Resized { width, height }).0.action == (Action::Resize { width, height }),
        respond(s, Input::Resized { width, height }).1 == (ControllerView { width, height, ..s }),
{
}

/// A lost surface never ends the program: the surface is reconfigured at
/// the last valid size, which pushes the uniform block and so asks for the
/// next redraw, where the next frame is acquired.
pub proof fn lemma_lost_surface_recovers(w: u32, h: u32)
    ensures
        frame_action(w, h, Err(FrameError::Lost)) == (Action::Resize { width: w, height: h }),
        frame_action(w, h, Err(FrameError::Lost)) != Action::Exit,
{
}

/// Only running out of memory ends the program among frame outcomes.
pub proof fn lemma_frame_exit_only_on_oom(w: u32, h: u32, outcome: Result<(), FrameError>)
    ensures
        frame_action(w, h, outcome) == Action::Exit <==> outcome == Err::<(), FrameError>(
            FrameError::OutOfMemory,
        ),
{
}

/// Budget after a run of events, first event first.
pub open spec fn budget_after(s: ControllerView, inputs: Seq<Input>) -> u32
    decreases inputs.len(),
{
    if inputs.len() == 0 {
        s.max_iterations
    } else {
        budget_after(respond(s, inputs[0]).1, inputs.drop_first())
    }
}

/// Whatever events arrive, Arrow-Up and Arrow-Down presses among them, a
/// valid budget stays a positive multiple of the step, at least the minimum.
pub proof fn lemma_events_keep_budget_valid(s: ControllerView, inputs: Seq<Input>)
    requires
        valid_iterations(s.max_iterations),
    ensures
        valid_iterations(budget_after(s, inputs)),
    decreases inputs.len(),
{
    if inputs.len() > 0 {
        let next = respond(s, inputs[0]).1;
        assert(valid_iterations(next.max_iterations));
        lemma_events_keep_budget_valid(next, inputs.drop_first());
    }
}

} // verus!
