//! What the host delivers to a controller, and what a controller asks of
//! the host in answer.

use vstd::prelude::*;
use crate::window::WindowDesc;
use crate::window::WindowState;

verus! {

/// The delay of each of the splash window's two timers, in seconds.
pub const SPLASH_TIME_SECS: u64 = 2;

/// The raw value of the token that belongs to no timer.
pub const INVALID_TIMER: u64 = 0;

/// The host's name for one scheduled timer. The host hands it out when the
/// timer is requested and sends it back when the timer fires.
#[derive(Clone, Copy, Debug, PartialEq, Eq)]
pub struct TimerToken {
    pub raw: u64,
}

impl TimerToken {
    /// The token that belongs to no timer.
    pub fn invalid() -> (token: TimerToken)
        ensures
            token.raw == INVALID_TIMER,
    {
        TimerToken { raw: INVALID_TIMER }
    }

    /// The token with the raw value `raw`.
    pub fn from_raw(raw: u64) -> (token: TimerToken)
        ensures
            token.raw == raw,
    {
        TimerToken { raw }
    }

    /// The token's raw value.
    pub fn into_raw(self) -> (raw: u64)
        ensures
            raw == self.raw,
    {
        self.raw
    }

    /// Whether the token belongs to a timer.
    pub open spec fn is_valid(self) -> bool {
        self.raw != INVALID_TIMER
    }
}

/// The two timers of the splash window.
#[derive(Clone, Copy, Debug, PartialEq, Eq)]
pub enum TimerSlot {
    /// The delay before the main window is asked for.
    Start,
    /// The delay between the main window's arrival and the splash window's
    /// end.
    Close,
}

/// The commands that the shell's controllers know.
#[derive(Clone, Copy, Debug, PartialEq, Eq)]
pub enum Command {
    /// Asks for the main window to be made and shown.
    StartMain,
    /// Says that the main window is connected.
    MainWindowConnected,
    /// Any command of the host or of another widget.
    Other,
}

/// To whom a command goes.
#[derive(Clone, Copy, Debug, PartialEq, Eq)]
pub enum Target {
    /// Every live window.
    Global,
    /// The window of the widget that sends it.
    Auto,
}

/// An event as a controller receives it.
#[derive(Clone, Copy, Debug, PartialEq, Eq)]
pub enum Event {
    /// The widget's window is connected to the platform.
    WindowConnected,
    /// The host scheduled the timer that the controller asked for in `slot`
    /// and named it `token`.
    TimerScheduled { slot: TimerSlot, token: TimerToken },
    /// The timer named by the token fired.
    Timer(TimerToken),
    /// A command arrived.
    Command(Command),
    /// Any other event: pointer, keyboard, and the like.
    Other,
}

/// What a controller or a widget asks of the host.
#[derive(Clone, Copy, Debug, PartialEq, Eq)]
pub enum Action {
    /// Schedule a one-shot timer that fires after `secs` seconds, and answer
    /// with `Event::TimerScheduled` for `slot`.
    RequestTimer { slot: TimerSlot, secs: u64 },
    /// Send `command` to `target`.
    Submit { command: Command, target: Target },
    /// Make the described window and show it.
    NewWindow(WindowDesc),
    /// Close the window of the widget that asks.
    CloseWindow,
    /// Put the window of the widget that asks into the given state.
    SetWindowState(WindowState),
    /// Treat the widget's area as the window's title bar, by which the
    /// user drags the window.
    HandleTitlebar(bool),
    /// End the application.
    Quit,
}

/// Whether a command was dealt with, or is still open to other handlers.
#[derive(Clone, Copy, Debug, PartialEq, Eq)]
pub enum Handled {
    Yes,
    No,
}

impl Handled {
    /// Whether the command was dealt with.
    pub fn is_handled(self) -> (handled: bool)
        ensures
            handled == (self == Handled::Yes),
    {
        match self {
            Handled::Yes => true,
            Handled::No => false,
        }
    }
}

} // verus!
