use raymarching::events::{
    event_action, render_action, Action, AppEvent, ElementState, RenderOutcome, WindowInput,
};

fn own(input: WindowInput) -> AppEvent {
    AppEvent::Window { own: true, input }
}

#[test]
fn close_and_escape_exit() {
    assert_eq!(event_action(own(WindowInput::CloseRequested), false), Action::Exit);
    let esc = WindowInput::KeyboardInput { state: ElementState::Pressed, escape: true };
    assert_eq!(event_action(own(esc), false), Action::Exit);
}

#[test]
fn other_keys_and_releases_do_nothing() {
    let up = WindowInput::KeyboardInput { state: ElementState::Released, escape: true };
    let other = WindowInput::KeyboardInput { state: ElementState::Pressed, escape: false };
    assert_eq!(event_action(own(up), false), Action::Nothing);
    assert_eq!(event_action(own(other), false), Action::Nothing);
    assert_eq!(event_action(own(WindowInput::Other), false), Action::Nothing);
}

#[test]
fn resizes_take_the_reported_size() {
    assert_eq!(
        event_action(own(WindowInput::Resized { width: 640, height: 480 }), false),
        Action::Resize { width: 640, height: 480 }
    );
    assert_eq!(
        event_action(own(WindowInput::ScaleFactorChanged { width: 1280, height: 960 }), false),
        Action::Resize { width: 1280, height: 960 }
    );
}

#[test]
fn consumed_and_foreign_events_are_ignored() {
    assert_eq!(event_action(own(WindowInput::CloseRequested), true), Action::Nothing);
    let foreign = AppEvent::Window { own: false, input: WindowInput::CloseRequested };
    assert_eq!(event_action(foreign, false), Action::Nothing);
    assert!(!foreign.offers_input());
    assert!(own(WindowInput::Other).offers_input());
    assert_eq!(event_action(AppEvent::RedrawRequested { own: false }, false), Action::Nothing);
}

#[test]
fn redraw_and_idle() {
    assert_eq!(event_action(AppEvent::RedrawRequested { own: true }, false), Action::Render);
    assert!(!AppEvent::RedrawRequested { own: true }.offers_input());
    assert_eq!(event_action(AppEvent::MainEventsCleared, false), Action::RequestRedraw);
    assert_eq!(event_action(AppEvent::Other, false), Action::Nothing);
}

#[test]
fn render_outcomes() {
    assert_eq!(render_action(RenderOutcome::Presented), Action::Nothing);
    assert_eq!(render_action(RenderOutcome::Lost), Action::Reconfigure);
    assert_eq!(render_action(RenderOutcome::Outdated), Action::Reconfigure);
    assert_eq!(render_action(RenderOutcome::OutOfMemory), Action::Exit);
    assert_eq!(render_action(RenderOutcome::Timeout), Action::WarnTimeout);
}
