//! The application's delegate: it makes the main window when asked.

use vstd::prelude::*;
use crate::event::Action;
use crate::event::Command;
use crate::event::Handled;
use crate::window::WindowDesc;

verus! {

/// The delegate's answer to a command.
#[derive(Clone, Copy, Debug, PartialEq, Eq)]
pub struct Outcome {
    /// Whether the command was the delegate's to deal with.
    pub handled: Handled,
    /// What the host is to do in answer.
    pub action: Option<Action>,
}

/// The application's delegate. It keeps no state: it answers each request
/// for the main window, and leaves it to the sender to ask once.
#[derive(Clone, Copy, Debug, PartialEq, Eq)]
pub struct Delegate;

impl Delegate {
    /// The delegate's answer to `command`: the main window for the request
    /// to start it, whoever sent it, and nothing for any other command.
    pub open spec fn outcome(command: Command) -> Outcome {
        if command == Command::StartMain {
            Outcome {
                handled: Handled::Yes,
                action: Some(Action::NewWindow(WindowDesc::spec_main())),
            }
        } else {
            Outcome { handled: Handled::No, action: None }
        }
    }

    /// Takes one command and says whether it was dealt with and what the
    /// host is to do in answer.
    pub fn command(&mut self, command: &Command) -> (outcome: Outcome)
        ensures
            outcome == Self::outcome(*command),
    {
        match command {
            Command::StartMain => Outcome {
                handled: Handled::Yes,
                action: Some(Action::NewWindow(WindowDesc::main())),
            },
            _ => Outcome { handled: Handled::No, action: None },
        }
    }
}

} // verus!
