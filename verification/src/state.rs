//! The session state: what the main state decides on window events.

use vstd::prelude::*;

use crate::settings::FxaaSettings;
use crate::settings::KeyCode;
use crate::settings::initial_settings;

verus! {

/// One event reaching the main state from the host's window layer.
#[derive(Clone, Copy, Debug, PartialEq, Eq, Structural)]
pub enum WindowEvent {
    CloseRequested,
    KeyDown { key: KeyCode },
    Other,
}

/// An event handed to the main state: a window event or anything else.
#[derive(Clone, Copy, Debug, PartialEq, Eq, Structural)]
pub enum StateEvent {
    Window(WindowEvent),
    Other,
}

/// The transition the main state answers with.
#[derive(Clone, Copy, Debug, PartialEq, Eq, Structural)]
pub enum SimpleTrans {
    /// End the session.
    Quit,
    /// Keep running.
    Stay,
}

/// Whether an event ends the session: the window was asked to close, or
/// the escape key went down.
pub open spec fn is_quit_event(event: StateEvent) -> bool {
    ||| event == StateEvent::Window(WindowEvent::CloseRequested)
    ||| event == StateEvent::Window(WindowEvent::KeyDown { key: KeyCode::Escape })
}

/// The session's main state.
#[derive(Clone, Copy, Debug, PartialEq, Eq, Structural, Default)]
pub struct MainState;

impl MainState {
    /// The settings the state installs when the session starts: the
    /// effect enabled.  Loading the scene itself is the host's business.
    pub fn on_start(&mut self) -> (s: FxaaSettings)
        ensures
            s.enabled,
    {
        initial_settings()
    }

    /// Decide the transition for one event: quit on a close request or on
    /// the escape key, stay otherwise.
    pub fn handle_event(&mut self, event: &StateEvent) -> (t: SimpleTrans)
        ensures
            t == (if is_quit_event(*event) { SimpleTrans::Quit } else { SimpleTrans::Stay }),
    {
        match event {
            StateEvent::Window(WindowEvent::CloseRequested) => SimpleTrans::Quit,
            StateEvent::Window(WindowEvent::KeyDown { key: KeyCode::Escape }) => SimpleTrans::Quit,
            _ => SimpleTrans::Stay,
        }
    }
}

} // verus!
