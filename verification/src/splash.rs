//! The splash window's controller: a state machine that asks for the main
//! window after a first delay and closes its own window a second delay
//! after the main window has arrived.

use vstd::prelude::*;
use crate::event::Action;
use crate::event::Command;
use crate::event::Event;
use crate::event::Target;
use crate::event::TimerSlot;
use crate::event::TimerToken;
use crate::event::INVALID_TIMER;
use crate::event::SPLASH_TIME_SECS;

verus! {

/// Where the splash window stands in its life.
#[derive(Clone, Copy, Debug, PartialEq, Eq)]
pub enum SplashState {
    /// The window is not connected yet.
    WaitingForConnect,
    /// The start timer was asked for and has not fired.
    WaitingForStartTimer,
    /// The main window was asked for and has not answered.
    WaitingForMainAck,
    /// The close timer was asked for and has not fired.
    WaitingForCloseTimer,
    /// The window was told to close.
    Closed,
}

/// The controller as a value: its state and its two timer slots. A slot
/// holds the token of the timer that is pending in it, or the invalid token
/// when none is.
pub struct SplashModel {
    pub state: SplashState,
    pub start: TimerToken,
    pub close: TimerToken,
}

/// The splash window's controller.
#[derive(Clone, Copy, Debug, PartialEq, Eq)]
pub struct SplashControl {
    state: SplashState,
    timer_id_start: TimerToken,
    timer_id_close: TimerToken,
}

/// The request for a timer in `slot`.
pub open spec fn request_timer(slot: TimerSlot) -> Action {
    Action::RequestTimer { slot, secs: SPLASH_TIME_SECS }
}

/// The broadcast that asks for the main window.
pub open spec fn start_main() -> Action {
    Action::Submit { command: Command::StartMain, target: Target::Global }
}

/// Everything the controller ever asks of the host, in order.
pub open spec fn script() -> Seq<Action> {
    seq![
        request_timer(TimerSlot::Start),
        start_main(),
        request_timer(TimerSlot::Close),
        Action::CloseWindow,
    ]
}

/// How many actions of the script are behind a controller in `state`.
pub open spec fn progress(state: SplashState) -> int {
    match state {
        SplashState::WaitingForConnect => 0,
        SplashState::WaitingForStartTimer => 1,
        SplashState::WaitingForMainAck => 2,
        SplashState::WaitingForCloseTimer => 3,
        SplashState::Closed => 4,
    }
}

impl SplashModel {
    /// The controller before any event.
    pub open spec fn fresh() -> SplashModel {
        SplashModel {
            state: SplashState::WaitingForConnect,
            start: TimerToken { raw: INVALID_TIMER },
            close: TimerToken { raw: INVALID_TIMER },
        }
    }

    /// A timer is pending in the start slot only while the controller waits
    /// for it, and likewise in the close slot.
    pub open spec fn wf(self) -> bool {
        &&& self.start.is_valid() ==> self.state == SplashState::WaitingForStartTimer
        &&& self.close.is_valid() ==> self.state == SplashState::WaitingForCloseTimer
    }

    /// Whether `event` moves the controller on to its next state. Each state
    /// has one such event; every other event leaves the state as it is.
    pub open spec fn advances(self, event: Event) -> bool {
        match self.state {
            SplashState::WaitingForConnect => event == Event::WindowConnected,
            SplashState::WaitingForStartTimer => self.start.is_valid() && event == Event::Timer(
                self.start,
            ),
            SplashState::WaitingForMainAck => event == Event::Command(
                Command::MainWindowConnected,
            ),
            SplashState::WaitingForCloseTimer => self.close.is_valid() && event == Event::Timer(
                self.close,
            ),
            SplashState::Closed => false,
        }
    }

    /// The state that follows `state`.
    pub open spec fn successor(state: SplashState) -> SplashState {
        match state {
            SplashState::WaitingForConnect => SplashState::WaitingForStartTimer,
            SplashState::WaitingForStartTimer => SplashState::WaitingForMainAck,
            SplashState::WaitingForMainAck => SplashState::WaitingForCloseTimer,
            SplashState::WaitingForCloseTimer => SplashState::Closed,
            SplashState::Closed => SplashState::Closed,
        }
    }

    /// Whether `event` brings the token of a timer that the controller asked
    /// for and has no token for yet.
    pub open spec fn records(self, event: Event) -> bool {
        match event {
            Event::TimerScheduled { slot, token } => token.is_valid() && match slot {
                TimerSlot::Start => self.state == SplashState::WaitingForStartTimer
                    && !self.start.is_valid(),
                TimerSlot::Close => self.state == SplashState::WaitingForCloseTimer
                    && !self.close.is_valid(),
            },
            _ => false,
        }
    }

    /// The controller after `event`.
    pub open spec fn next(self, event: Event) -> SplashModel {
        if self.advances(event) {
            SplashModel {
                state: Self::successor(self.state),
                start: TimerToken { raw: INVALID_TIMER },
                close: TimerToken { raw: INVALID_TIMER },
            }
        } else if self.records(event) {
            match event {
                Event::TimerScheduled { slot: TimerSlot::Start, token } => SplashModel {
                    start: token,
                    ..self
                },
                Event::TimerScheduled { slot: TimerSlot::Close, token } => SplashModel {
                    close: token,
                    ..self
                },
                _ => self,
            }
        } else {
            self
        }
    }

    /// What the controller asks of the host in answer to `event`: the next
    /// action of the script where the event moves it on, nothing otherwise.
    pub open spec fn action(self, event: Event) -> Option<Action> {
        if self.advances(event) {
            Some(script()[progress(self.state)])
        } else {
            None
        }
    }

    /// The controller after `events`, one after the other.
    pub open spec fn run(self, events: Seq<Event>) -> SplashModel
        decreases events.len(),
    {
        if events.len() == 0 {
            self
        } else {
            self.next(events[0]).run(events.drop_first())
        }
    }

    /// What the controller asks of the host in the course of `events`.
    pub open spec fn actions(self, events: Seq<Event>) -> Seq<Action>
        decreases events.len(),
    {
        if events.len() == 0 {
            Seq::empty()
        } else {
            let rest = self.next(events[0]).actions(events.drop_first());
            match self.action(events[0]) {
                Some(a) => seq![a] + rest,
                None => rest,
            }
        }
    }
}

impl View for SplashControl {
    type V = SplashModel;

    closed spec fn view(&self) -> SplashModel {
        SplashModel {
            state: self.state,
            start: self.timer_id_start,
            close: self.timer_id_close,
        }
    }
}

impl SplashControl {
    #[verifier::type_invariant]
    spec fn well_formed(self) -> bool {
        self@.wf()
    }

    /// A controller whose window is not connected yet, with no timer
    /// pending.
    pub fn new() -> (control: SplashControl)
        ensures
            control@ == SplashModel::fresh(),
    {
        SplashControl::entering(SplashState::WaitingForConnect)
    }

    /// A controller that has just come to `state`, with no timer pending.
    fn entering(state: SplashState) -> (control: SplashControl)
        ensures
            control@ == (SplashModel {
                state,
                start: TimerToken { raw: INVALID_TIMER },
                close: TimerToken { raw: INVALID_TIMER },
            }),
    {
        SplashControl {
            state,
            timer_id_start: TimerToken::invalid(),
            timer_id_close: TimerToken::invalid(),
        }
    }

    /// The controller's state.
    pub fn state(&self) -> (state: SplashState)
        ensures
            state == self@.state,
            self@.wf(),
    {
        proof {
            use_type_invariant(self);
        }
        self.state
    }

    /// The token of the pending start timer, or the invalid token.
    pub fn timer_id_start(&self) -> (token: TimerToken)
        ensures
            token == self@.start,
    {
        self.timer_id_start
    }

    /// The token of the pending close timer, or the invalid token.
    pub fn timer_id_close(&self) -> (token: TimerToken)
        ensures
            token == self@.close,
    {
        self.timer_id_close
    }

    /// Takes one event and says what the host is to do in answer.
    ///
    /// The window's connection asks for the start timer. The start timer's
    /// firing broadcasts the request for the main window. The main window's
    /// word that it is connected asks for the close timer. The close
    /// timer's firing closes the window. The host's answer to a timer
    /// request, `Event::TimerScheduled`, fills the slot that waits for it.
    /// Any other event, a timer with another token among them, changes
    /// nothing and asks for nothing.
    pub fn event(&mut self, event: &Event) -> (action: Option<Action>)
        ensures
            final(self)@ == old(self)@.next(*event),
            action == old(self)@.action(*event),
            final(self)@.wf(),
    {
        proof {
            use_type_invariant(&*self);
        }
        match (self.state, *event) {
            (SplashState::WaitingForConnect, Event::WindowConnected) => {
                *self = SplashControl::entering(SplashState::WaitingForStartTimer);
                Some(Action::RequestTimer { slot: TimerSlot::Start, secs: SPLASH_TIME_SECS })
            },
            (
                SplashState::WaitingForStartTimer,
                Event::TimerScheduled { slot: TimerSlot::Start, token },
            ) => {
                if self.timer_id_start.raw == INVALID_TIMER && token.raw != INVALID_TIMER {
                    *self = SplashControl { timer_id_start: token, ..*self };
                }
                None
            },
            (SplashState::WaitingForStartTimer, Event::Timer(token)) => {
                if token.raw != INVALID_TIMER && token.raw == self.timer_id_start.raw {
                    *self = SplashControl::entering(SplashState::WaitingForMainAck);
                    Some(Action::Submit { command: Command::StartMain, target: Target::Global })
                } else {
                    None
                }
            },
            (SplashState::WaitingForMainAck, Event::Command(Command::MainWindowConnected)) => {
                *self = SplashControl::entering(SplashState::WaitingForCloseTimer);
                Some(Action::RequestTimer { slot: TimerSlot::Close, secs: SPLASH_TIME_SECS })
            },
            (
                SplashState::WaitingForCloseTimer,
                Event::TimerScheduled { slot: TimerSlot::Close, token },
            ) => {
                if self.timer_id_close.raw == INVALID_TIMER && token.raw != INVALID_TIMER {
                    *self = SplashControl { timer_id_close: token, ..*self };
                }
                None
            },
            (SplashState::WaitingForCloseTimer, Event::Timer(token)) => {
                if token.raw != INVALID_TIMER && token.raw == self.timer_id_close.raw {
                    *self = SplashControl::entering(SplashState::Closed);
                    Some(Action::CloseWindow)
                } else {
                    None
                }
            },
            _ => None,
        }
    }
}

} // verus!
