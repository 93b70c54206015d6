//! What the session does about each event of its window.
//!
//! The host owns the event loop. It tells the session what happened, in the terms
//! of `Event`, and carries out the `Action` it gets back.
use vstd::prelude::*;
use crate::frame::RenderCommand;
use crate::state::{
    PhysicalSize, State, StateView, Status, SurfaceConfiguration, SurfaceError,
};

verus! {

/// What happened. `own_window` says whether the event is about the session's own
/// window.
#[derive(Clone, Copy, Debug, PartialEq, Eq, Structural)]
pub enum Event {
    /// The window must be drawn again.
    RedrawRequested { own_window: bool },
    /// All pending events have been handled.
    MainEventsCleared,
    /// The window has a new size.
    Resized { own_window: bool, size: PhysicalSize },
    /// The user asked to close the window.
    CloseRequested { own_window: bool },
    /// The escape key went down.
    EscapePressed { own_window: bool },
    /// Anything else.
    Other,
}

/// What the host is to do next.
#[derive(Clone, Copy, Debug, PartialEq, Eq, Structural)]
pub enum Action {
    /// Nothing.
    Nothing,
    /// Acquire the surface's next image and draw a frame with `State::render`.
    Render,
    /// Ask the window for a redraw.
    RequestRedraw,
    /// Configure the surface with this configuration, compute the camera's matrix
    /// anew and hand it to `State::update`.
    Configure(SurfaceConfiguration),
    /// Leave the event loop.
    Exit,
}

impl State {
    /// Whether the session has used up an event of its window itself. It uses
    /// none.
    pub fn input(&mut self, event: &Event) -> (r: bool)
        ensures
            !r,
            final(self)@ == old(self)@,
    {
        false
    }
}

/// The action that answers `event` in the state `state`. A redraw of the own
/// window draws a frame while the session is ready; cleared events ask for the
/// next redraw; a new size of the own window without a zero side has the surface
/// configured anew; a close request or the escape key on the own window ends the
/// loop. Everything else, and every event of another window, is passed over.
pub open spec fn action_for(state: StateView, event: Event) -> Action {
    match event {
        Event::RedrawRequested { own_window } => if own_window && state.status == Status::Ready {
            Action::Render
        } else {
            Action::Nothing
        },
        Event::MainEventsCleared => Action::RequestRedraw,
        Event::Resized { own_window, size } => if own_window && size.width > 0 && size.height
            > 0 {
            Action::Configure(state.resized(size).config)
        } else {
            Action::Nothing
        },
        Event::CloseRequested { own_window } => if own_window {
            Action::Exit
        } else {
            Action::Nothing
        },
        Event::EscapePressed { own_window } => if own_window {
            Action::Exit
        } else {
            Action::Nothing
        },
        Event::Other => Action::Nothing,
    }
}

/// The session after `event`: only a new size of the own window without a zero
/// side changes it.
pub open spec fn state_after(state: StateView, event: Event) -> StateView {
    match event {
        Event::Resized { own_window, size } => if own_window && size.width > 0 && size.height
            > 0 {
            state.resized(size)
        } else {
            state
        },
        _ => state,
    }
}

/// Takes one event of the host's loop and says what to do about it.
pub fn handle_event(state: &mut State, event: Event) -> (r: Action)
    ensures
        old(state)@.wf() ==> final(state)@.wf(),
        r == action_for(old(state)@, event),
        final(state)@ == state_after(old(state)@, event),
{
    match event {
        Event::RedrawRequested { own_window } => {
            if own_window && state.status() == Status::Ready {
                Action::Render
            } else {
                Action::Nothing
            }
        },
        Event::MainEventsCleared => Action::RequestRedraw,
        Event::Resized { own_window, size } => {
            if own_window && state.resize(size) {
                Action::Configure(state.config())
            } else {
                Action::Nothing
            }
        },
        Event::CloseRequested { own_window } => {
            if own_window {
                Action::Exit
            } else {
                Action::Nothing
            }
        },
        Event::EscapePressed { own_window } => {
            if own_window {
                Action::Exit
            } else {
                Action::Nothing
            }
        },
        Event::Other => Action::Nothing,
    }
}

/// What follows a frame: a fatal error ends the loop; after a frame that was drawn,
/// and after any other error, the loop goes on and the next redraw tries again.
pub fn after_frame(result: &Result<Vec<RenderCommand>, SurfaceError>) -> (r: Action)
    ensures
        r == match *result {
            Err(e) => if e.is_fatal() {
                Action::Exit
            } else {
                Action::Nothing
            },
            Ok(_) => Action::Nothing,
        },
{
    match result {
        Err(e) => {
            if e.fatal() {
                Action::Exit
            } else {
                Action::Nothing
            }
        },
        Ok(_) => Action::Nothing,
    }
}

/// A size with a zero side leaves the surface's configuration as it was, whatever
/// the window the event belongs to.
pub proof fn lemma_degenerate_resize_is_ignored(
    state: StateView,
    own_window: bool,
    size: PhysicalSize,
)
    requires
        size.width == 0 || size.height == 0,
    ensures
        state_after(state, Event::Resized { own_window, size }) == state,
        action_for(state, Event::Resized { own_window, size }) == Action::Nothing,
{
}

} // verus!
