//! The main window's controller: it tells every window that the main
//! window is connected.

use vstd::prelude::*;
use crate::event::Action;
use crate::event::Command;
use crate::event::Event;
use crate::event::Target;

verus! {

/// The broadcast that says that the main window is connected.
pub open spec fn main_window_connected() -> Action {
    Action::Submit { command: Command::MainWindowConnected, target: Target::Global }
}

/// The main window's controller. It keeps no state.
#[derive(Clone, Copy, Debug, PartialEq, Eq)]
pub struct MainControl;

impl MainControl {
    /// What the controller asks of the host in answer to `event`: the
    /// broadcast on the window's connection, nothing on any other event.
    pub open spec fn action(event: Event) -> Option<Action> {
        if event == Event::WindowConnected {
            Some(main_window_connected())
        } else {
            None
        }
    }

    /// Takes one event and says what the host is to do in answer.
    pub fn event(&mut self, event: &Event) -> (action: Option<Action>)
        ensures
            action == Self::action(*event),
    {
        match event {
            Event::WindowConnected => Some(
                Action::Submit { command: Command::MainWindowConnected, target: Target::Global },
            ),
            _ => None,
        }
    }
}

} // verus!
