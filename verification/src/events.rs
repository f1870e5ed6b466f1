use vstd::prelude::*;

verus! {

/// Whether a key went down or up.
#[derive(Clone, Copy, Debug, PartialEq, Eq, Structural)]
pub enum ElementState {
    Pressed,
    Released,
}

/// What happened to a window, as far as the viewer tells events apart.
#[derive(Clone, Copy, Debug, PartialEq, Eq, Structural)]
pub enum WindowInput {
    /// The user asked to close the window.
    CloseRequested,
    /// A key changed state; `escape` tells whether it is the Escape key.
    KeyboardInput { state: ElementState, escape: bool },
    /// The window's inner size changed.
    Resized { width: u32, height: u32 },
    /// The scale factor changed and the window takes this new inner size.
    ScaleFactorChanged { width: u32, height: u32 },
    /// Any other window event.
    Other,
}

/// An event of the event loop. `own` tells whether a window event or a
/// redraw request is for the viewer's window.
#[derive(Clone, Copy, Debug, PartialEq, Eq, Structural)]
pub enum AppEvent {
    Window { own: bool, input: WindowInput },
    RedrawRequested { own: bool },
    MainEventsCleared,
    Other,
}

/// How drawing a frame ended.
#[derive(Clone, Copy, Debug, PartialEq, Eq, Structural)]
pub enum RenderOutcome {
    /// The frame was drawn and presented.
    Presented,
    /// The surface was lost.
    Lost,
    /// The surface no longer matches the window.
    Outdated,
    /// The GPU ran out of memory.
    OutOfMemory,
    /// Getting the next frame timed out.
    Timeout,
}

/// What the event loop does next.
#[derive(Clone, Copy, Debug, PartialEq, Eq, Structural)]
pub enum Action {
    /// Nothing; wait for the next event.
    Nothing,
    /// Leave the event loop.
    Exit,
    /// Resize the display to the given inner size.
    Resize { width: u32, height: u32 },
    /// Reconfigure the surface at the display's current size.
    Reconfigure,
    /// Update the state and draw a frame.
    Render,
    /// Ask the window for a redraw.
    RequestRedraw,
    /// Log that getting a frame timed out, and go on.
    WarnTimeout,
}

/// What a window event for the viewer's window does when the display did not
/// consume it: close or Escape pressed exit, a new size resizes.
pub open spec fn window_input_action(input: WindowInput) -> Action {
    match input {
        WindowInput::CloseRequested => Action::Exit,
        WindowInput::KeyboardInput { state, escape } => if state == ElementState::Pressed
            && escape {
            Action::Exit
        } else {
            Action::Nothing
        },
        WindowInput::Resized { width, height } => Action::Resize { width, height },
        WindowInput::ScaleFactorChanged { width, height } => Action::Resize { width, height },
        WindowInput::Other => Action::Nothing,
    }
}

/// What the event loop does with an event, given whether the display
/// consumed it (read only for window events of the viewer's window).
pub open spec fn spec_event_action(event: AppEvent, input_consumed: bool) -> Action {
    match event {
        AppEvent::Window { own, input } => if own && !input_consumed {
            window_input_action(input)
        } else {
            Action::Nothing
        },
        AppEvent::RedrawRequested { own } => if own {
            Action::Render
        } else {
            Action::Nothing
        },
        AppEvent::MainEventsCleared => Action::RequestRedraw,
        AppEvent::Other => Action::Nothing,
    }
}

/// What the event loop does after drawing a frame ended with `outcome`.
pub open spec fn spec_render_action(outcome: RenderOutcome) -> Action {
    match outcome {
        RenderOutcome::Presented => Action::Nothing,
        RenderOutcome::Lost => Action::Reconfigure,
        RenderOutcome::Outdated => Action::Reconfigure,
        RenderOutcome::OutOfMemory => Action::Exit,
        RenderOutcome::Timeout => Action::WarnTimeout,
    }
}

impl AppEvent {
    /// Whether the display is asked to handle the event first: window events
    /// of the viewer's window.
    pub fn offers_input(&self) -> (b: bool)
        ensures
            b <==> (*self matches AppEvent::Window { own, .. } && own),
    {
        match self {
            AppEvent::Window { own, .. } => *own,
            _ => false,
        }
    }
}

/// The decision the event loop takes for one event. `input_consumed` is what
/// the display answered when it was offered the event (see
/// `AppEvent::offers_input`); for other events it is not read.
pub fn event_action(event: AppEvent, input_consumed: bool) -> (a: Action)
    ensures
        a == spec_event_action(event, input_consumed),
{
    match event {
        AppEvent::Window { own, input } => {
            if own && !input_consumed {
                match input {
                    WindowInput::CloseRequested => Action::Exit,
                    WindowInput::KeyboardInput { state, escape } => {
                        if state == ElementState::Pressed && escape {
                            Action::Exit
                        } else {
                            Action::Nothing
                        }
                    },
                    WindowInput::Resized { width, height } => Action::Resize { width, height },
                    WindowInput::ScaleFactorChanged { width, height } => Action::Resize {
                        width,
                        height,
                    },
                    WindowInput::Other => Action::Nothing,
                }
            } else {
                Action::Nothing
            }
        },
        AppEvent::RedrawRequested { own } => {
            if own {
                Action::Render
            } else {
                Action::Nothing
            }
        },
        AppEvent::MainEventsCleared => Action::RequestRedraw,
        AppEvent::Other => Action::Nothing,
    }
}

/// The decision the event loop takes after drawing a frame: a lost or
/// outdated surface is reconfigured, running out of memory exits, a timeout
/// is logged and skipped.
pub fn render_action(outcome: RenderOutcome) -> (a: Action)
    ensures
        a == spec_render_action(outcome),
{
    match outcome {
        RenderOutcome::Presented => Action::Nothing,
        RenderOutcome::Lost | RenderOutcome::Outdated => Action::Reconfigure,
        RenderOutcome::OutOfMemory => Action::Exit,
        RenderOutcome::Timeout => Action::WarnTimeout,
    }
}

/// Events for another window, and events the display consumed, change
/// nothing.
pub proof fn lemma_foreign_or_consumed_events_ignored(input: WindowInput, own: bool, consumed: bool)
    ensures
        !own ==> spec_event_action(AppEvent::Window { own, input }, consumed) == Action::Nothing,
        consumed ==> spec_event_action(AppEvent::Window { own, input }, consumed) == Action::Nothing,
        spec_event_action(AppEvent::RedrawRequested { own: false }, consumed) == Action::Nothing,
{
}

/// The viewer exits only when its window is asked to close, when Escape is
/// pressed in it, or when drawing runs out of GPU memory.
pub proof fn lemma_exit_causes(event: AppEvent, consumed: bool, outcome: RenderOutcome)
    ensures
        spec_event_action(event, consumed) == Action::Exit <==> (event matches AppEvent::Window {
            own,
            input,
        } && own && !consumed && (input == WindowInput::CloseRequested || input
            == WindowInput::KeyboardInput { state: ElementState::Pressed, escape: true })),
        spec_render_action(outcome) == Action::Exit <==> outcome == RenderOutcome::OutOfMemory,
{
}

/// A resize always takes the size that the window reported.
pub proof fn lemma_resize_takes_reported_size(event: AppEvent, consumed: bool, width: u32, height: u32)
    ensures
        spec_event_action(event, consumed) == (Action::Resize { width, height }) ==> (event matches AppEvent::Window {
            input,
            ..
        } && (input == WindowInput::Resized { width, height } || input
            == WindowInput::ScaleFactorChanged { width, height })),
{
}

/// An event of the viewer's own window that the display did not consume:
/// a resize or a change of scale factor resizes to exactly the reported inner
/// size, a close request exits, a key exits only when it is Escape going down
/// and otherwise does nothing, and any other window event does nothing.
pub proof fn lemma_own_window_events(width: u32, height: u32, state: ElementState, escape: bool)
    ensures
        spec_event_action(
            AppEvent::Window { own: true, input: WindowInput::Resized { width, height } },
            false,
        ) == (Action::Resize { width, height }),
        spec_event_action(
            AppEvent::Window { own: true, input: WindowInput::ScaleFactorChanged { width, height } },
            false,
        ) == (Action::Resize { width, height }),
        spec_event_action(AppEvent::Window { own: true, input: WindowInput::CloseRequested }, false)
            == Action::Exit,
        spec_event_action(
            AppEvent::Window { own: true, input: WindowInput::KeyboardInput { state, escape } },
            false,
        ) == (if state == ElementState::Pressed && escape {
            Action::Exit
        } else {
            Action::Nothing
        }),
        spec_event_action(AppEvent::Window { own: true, input: WindowInput::Other }, false)
            == Action::Nothing,
{
}

/// A redraw of the viewer's own window draws a frame; once the pending events
/// are handled a redraw is requested; any other event does nothing.
pub proof fn lemma_frame_events(consumed: bool)
    ensures
        spec_event_action(AppEvent::RedrawRequested { own: true }, consumed) == Action::Render,
        spec_event_action(AppEvent::MainEventsCleared, consumed) == Action::RequestRedraw,
        spec_event_action(AppEvent::Other, consumed) == Action::Nothing,
{
}

/// After a frame: a presented frame needs nothing, a lost or outdated surface
/// is reconfigured, running out of memory exits and a timeout is only logged.
pub proof fn lemma_render_outcomes()
    ensures
        spec_render_action(RenderOutcome::Presented) == Action::Nothing,
        spec_render_action(RenderOutcome::Lost) == Action::Reconfigure,
        spec_render_action(RenderOutcome::Outdated) == Action::Reconfigure,
        spec_render_action(RenderOutcome::OutOfMemory) == Action::Exit,
        spec_render_action(RenderOutcome::Timeout) == Action::WarnTimeout,
{
}

} // verus!
