//! What holds of the splash window's controller over every course of
//! events.

use vstd::prelude::*;
use crate::event::Action;
use crate::event::Command;
use crate::event::Event;
use crate::event::TimerSlot;
use crate::event::TimerToken;
use crate::splash::progress;
use crate::splash::request_timer;
use crate::splash::script;
use crate::splash::start_main;
use crate::splash::SplashModel;
use crate::splash::SplashState;

verus! {

/// No event breaks the rule of the slots: after it, a timer is still
/// pending in a slot only while the controller waits for that timer.
pub proof fn lemma_next_keeps_wf(m: SplashModel, event: Event)
    requires
        m.wf(),
    ensures
        m.next(event).wf(),
{
}

/// No course of events breaks the rule of the slots.
pub proof fn lemma_run_keeps_wf(m: SplashModel, events: Seq<Event>)
    requires
        m.wf(),
    ensures
        m.run(events).wf(),
    decreases events.len(),
{
    if events.len() > 0 {
        lemma_next_keeps_wf(m, events[0]);
        lemma_run_keeps_wf(m.next(events[0]), events.drop_first());
    }
}

/// At most one timer is pending at any time, so the tokens in the two
/// slots never stand for the same timer.
pub proof fn lemma_one_timer_pending(m: SplashModel, events: Seq<Event>)
    requires
        m.wf(),
    ensures
        !(m.run(events).start.is_valid() && m.run(events).close.is_valid()),
{
    lemma_run_keeps_wf(m, events);
}

/// An event moves the controller one state on or leaves its state alone,
/// and the controller asks something of the host exactly when it moves:
/// the action of the script that its old state stood before.
pub proof fn lemma_step_follows_script(m: SplashModel, event: Event)
    ensures
        m.advances(event) ==> progress(m.next(event).state) == progress(m.state) + 1
            && m.action(event) == Some(script()[progress(m.state)]),
        !m.advances(event) ==> m.next(event).state == m.state && m.action(event).is_none(),
{
}

/// Over any course of events the controller asks of the host a stretch of
/// the script, in the script's order: the part between the state it began
/// in and the state it ends in. From a fresh controller that is a prefix
/// of the script.
pub proof fn lemma_actions_follow_script(m: SplashModel, events: Seq<Event>)
    ensures
        0 <= progress(m.state) <= progress(m.run(events).state) <= 4,
        m.actions(events) == script().subrange(
            progress(m.state),
            progress(m.run(events).state),
        ),
    decreases events.len(),
{
    let p = progress(m.state);
    if events.len() == 0 {
        assert(m.actions(events) =~= script().subrange(p, p));
    } else {
        let m1 = m.next(events[0]);
        let rest = events.drop_first();
        lemma_step_follows_script(m, events[0]);
        lemma_actions_follow_script(m1, rest);
        let q = progress(m.run(events).state);
        if m.advances(events[0]) {
            assert(seq![script()[p]] + script().subrange(p + 1, q) =~= script().subrange(p, q));
        }
    }
}

/// Nothing is asked of the host twice: over any course of events, from any
/// state, no two of the controller's actions are equal. So there is at
/// most one request for each timer, one broadcast for the main window and
/// one closing of the window.
pub proof fn lemma_no_action_twice(m: SplashModel, events: Seq<Event>)
    ensures
        forall|i: int, j: int|
            0 <= i < j < m.actions(events).len() ==> m.actions(events)[i] != m.actions(events)[j],
{
    lemma_actions_follow_script(m, events);
}

/// The window closes only at the end of the whole handshake: where a
/// course of events from a fresh controller has the window closed, the
/// controller has asked for the start timer, broadcast the request for the
/// main window, asked for the close timer and closed the window, in that
/// order and each once.
pub proof fn lemma_close_ends_handshake(events: Seq<Event>)
    requires
        SplashModel::fresh().actions(events).contains(Action::CloseWindow),
    ensures
        SplashModel::fresh().actions(events) == script(),
        SplashModel::fresh().run(events).state == SplashState::Closed,
{
    let m = SplashModel::fresh();
    lemma_actions_follow_script(m, events);
    let q = progress(m.run(events).state);
    let i = choose|i: int| 0 <= i < m.actions(events).len() && m.actions(events)[i] == Action::CloseWindow;
    assert(script().subrange(0, q)[i] == script()[i]);
    assert(q == 4);
    assert(script().subrange(0, 4) =~= script());
}

/// A closed controller is at its end: it takes every event, changes in
/// nothing and asks for nothing.
pub proof fn lemma_closed_is_final(m: SplashModel, events: Seq<Event>)
    requires
        m.state == SplashState::Closed,
    ensures
        m.run(events) == m,
        m.actions(events) == Seq::<Action>::empty(),
    decreases events.len(),
{
    if events.len() > 0 {
        lemma_closed_is_final(m, events.drop_first());
    }
}

/// The six events of a whole handshake stand in `events` at the given
/// places, in order: the window's connection, the token `start` handed
/// over for the start timer, that timer's firing, the main window's word,
/// the token `close` handed over for the close timer, and that timer's
/// firing.
pub open spec fn handshake_at(
    events: Seq<Event>,
    places: (int, int, int, int, int, int),
    start: TimerToken,
    close: TimerToken,
) -> bool {
    &&& 0 <= places.0 < places.1 < places.2 < places.3 < places.4 < places.5 < events.len()
    &&& start.is_valid()
    &&& close.is_valid()
    &&& events[places.0] == Event::WindowConnected
    &&& events[places.1] == Event::TimerScheduled { slot: TimerSlot::Start, token: start }
    &&& events[places.2] == Event::Timer(start)
    &&& events[places.3] == Event::Command(Command::MainWindowConnected)
    &&& events[places.4] == Event::TimerScheduled { slot: TimerSlot::Close, token: close }
    &&& events[places.5] == Event::Timer(close)
}

/// A controller that waits for the close timer named `m.close` and ends
/// closed has seen that timer fire.
proof fn lemma_path_from_close_timer(m: SplashModel, events: Seq<Event>) -> (k: int)
    requires
        m.state == SplashState::WaitingForCloseTimer,
        m.close.is_valid(),
        m.run(events).state == SplashState::Closed,
    ensures
        0 <= k < events.len(),
        events[k] == Event::Timer(m.close),
    decreases events.len(),
{
    if events[0] == Event::Timer(m.close) {
        0
    } else {
        assert(m.next(events[0]) == m);
        lemma_path_from_close_timer(m, events.drop_first()) + 1
    }
}

/// A controller that has asked for the close timer and ends closed has
/// been handed a token for it and has then seen that timer fire.
proof fn lemma_path_from_close_request(m: SplashModel, events: Seq<Event>) -> (w: (
    int,
    int,
    TimerToken,
))
    requires
        m.state == SplashState::WaitingForCloseTimer,
        !m.close.is_valid(),
        m.run(events).state == SplashState::Closed,
    ensures
        0 <= w.0 < w.1 < events.len(),
        w.2.is_valid(),
        events[w.0] == (Event::TimerScheduled { slot: TimerSlot::Close, token: w.2 }),
        events[w.1] == Event::Timer(w.2),
    decreases events.len(),
{
    let rest = events.drop_first();
    if m.records(events[0]) {
        let m1 = m.next(events[0]);
        let k = lemma_path_from_close_timer(m1, rest);
        (0, k + 1, m1.close)
    } else {
        assert(m.next(events[0]) == m);
        let w = lemma_path_from_close_request(m, rest);
        (w.0 + 1, w.1 + 1, w.2)
    }
}

/// A controller that waits for the main window's word and ends closed has
/// had that word, and after it the close timer's token and firing.
proof fn lemma_path_from_main_ack(m: SplashModel, events: Seq<Event>) -> (w: (
    int,
    int,
    int,
    TimerToken,
))
    requires
        m.state == SplashState::WaitingForMainAck,
        m.run(events).state == SplashState::Closed,
    ensures
        0 <= w.0 < w.1 < w.2 < events.len(),
        w.3.is_valid(),
        events[w.0] == Event::Command(Command::MainWindowConnected),
        events[w.1] == (Event::TimerScheduled { slot: TimerSlot::Close, token: w.3 }),
        events[w.2] == Event::Timer(w.3),
    decreases events.len(),
{
    let rest = events.drop_first();
    if m.advances(events[0]) {
        let w = lemma_path_from_close_request(m.next(events[0]), rest);
        (0, w.0 + 1, w.1 + 1, w.2)
    } else {
        assert(m.next(events[0]) == m);
        let w = lemma_path_from_main_ack(m, rest);
        (w.0 + 1, w.1 + 1, w.2 + 1, w.3)
    }
}

/// A controller that waits for the start timer named `m.start` and ends
/// closed has seen that timer fire, and after it the rest of the
/// handshake.
proof fn lemma_path_from_start_timer(m: SplashModel, events: Seq<Event>) -> (w: (
    int,
    int,
    int,
    int,
    TimerToken,
))
    requires
        m.state == SplashState::WaitingForStartTimer,
        m.start.is_valid(),
        m.run(events).state == SplashState::Closed,
    ensures
        0 <= w.0 < w.1 < w.2 < w.3 < events.len(),
        w.4.is_valid(),
        events[w.0] == Event::Timer(m.start),
        events[w.1] == Event::Command(Command::MainWindowConnected),
        events[w.2] == (Event::TimerScheduled { slot: TimerSlot::Close, token: w.4 }),
        events[w.3] == Event::Timer(w.4),
    decreases events.len(),
{
    let rest = events.drop_first();
    if m.advances(events[0]) {
        let w = lemma_path_from_main_ack(m.next(events[0]), rest);
        (0, w.0 + 1, w.1 + 1, w.2 + 1, w.3)
    } else {
        assert(m.next(events[0]) == m);
        let w = lemma_path_from_start_timer(m, rest);
        (w.0 + 1, w.1 + 1, w.2 + 1, w.3 + 1, w.4)
    }
}

/// A controller that has asked for the start timer and ends closed has
/// been handed a token for it, and has then seen the rest of the
/// handshake.
proof fn lemma_path_from_start_request(m: SplashModel, events: Seq<Event>) -> (w: (
    (int, int, int, int, int),
    TimerToken,
    TimerToken,
))
    requires
        m.state == SplashState::WaitingForStartTimer,
        !m.start.is_valid(),
        m.run(events).state == SplashState::Closed,
    ensures
        0 <= w.0.0 < w.0.1 < w.0.2 < w.0.3 < w.0.4 < events.len(),
        w.1.is_valid(),
        w.2.is_valid(),
        events[w.0.0] == (Event::TimerScheduled { slot: TimerSlot::Start, token: w.1 }),
        events[w.0.1] == Event::Timer(w.1),
        events[w.0.2] == Event::Command(Command::MainWindowConnected),
        events[w.0.3] == (Event::TimerScheduled { slot: TimerSlot::Close, token: w.2 }),
        events[w.0.4] == Event::Timer(w.2),
    decreases events.len(),
{
    let rest = events.drop_first();
    if m.records(events[0]) {
        let m1 = m.next(events[0]);
        let w = lemma_path_from_start_timer(m1, rest);
        ((0, w.0 + 1, w.1 + 1, w.2 + 1, w.3 + 1), m1.start, w.4)
    } else {
        assert(m.next(events[0]) == m);
        let w = lemma_path_from_start_request(m, rest);
        ((w.0.0 + 1, w.0.1 + 1, w.0.2 + 1, w.0.3 + 1, w.0.4 + 1), w.1, w.2)
    }
}

/// A controller that is not connected yet and ends closed has been
/// connected, and has then seen the rest of the handshake.
proof fn lemma_path_from_connect(m: SplashModel, events: Seq<Event>) -> (w: (
    (int, int, int, int, int, int),
    TimerToken,
    TimerToken,
))
    requires
        m == SplashModel::fresh(),
        m.run(events).state == SplashState::Closed,
    ensures
        handshake_at(events, w.0, w.1, w.2),
    decreases events.len(),
{
    let rest = events.drop_first();
    if m.advances(events[0]) {
        let w = lemma_path_from_start_request(m.next(events[0]), rest);
        ((0, w.0.0 + 1, w.0.1 + 1, w.0.2 + 1, w.0.3 + 1, w.0.4 + 1), w.1, w.2)
    } else {
        assert(m.next(events[0]) == m);
        let w = lemma_path_from_connect(m, rest);
        ((w.0.0 + 1, w.0.1 + 1, w.0.2 + 1, w.0.3 + 1, w.0.4 + 1, w.0.5 + 1), w.1, w.2)
    }
}

/// The window closes only after the first delay and the main window's
/// word, in that order: a course of events that leaves a fresh controller
/// closed holds, one after the other, the window's connection, the start
/// timer's token and its firing, the main window's word, and the close
/// timer's token and its firing.
pub proof fn lemma_close_follows_delay_and_ack(events: Seq<Event>)
    requires
        SplashModel::fresh().run(events).state == SplashState::Closed,
    ensures
        exists|places: (int, int, int, int, int, int), start: TimerToken, close: TimerToken|
            handshake_at(events, places, start, close),
{
    let w = lemma_path_from_connect(SplashModel::fresh(), events);
    assert(handshake_at(events, w.0, w.1, w.2));
}

/// A timer that fires with a token other than the one in the start slot
/// never broadcasts the request for the main window, whatever the
/// controller's state; nor does one that fires with the invalid token.
pub proof fn lemma_unrelated_timer_starts_nothing(m: SplashModel, fired: TimerToken)
    requires
        fired != m.start || !fired.is_valid(),
    ensures
        m.action(Event::Timer(fired)) != Some(start_main()),
{
}

/// A fresh controller that is connected, is handed `scheduled` for its
/// start timer and then sees a timer fire under another token has asked
/// for the start timer and for nothing else, and still waits for it. The
/// same holds where the other timer fires before the token is handed over.
pub proof fn lemma_connect_then_unrelated_timer(scheduled: TimerToken, fired: TimerToken)
    requires
        fired != scheduled,
    ensures
        ({
            let told = Event::TimerScheduled { slot: TimerSlot::Start, token: scheduled };
            let m1 = SplashModel::fresh().next(Event::WindowConnected);
            let m2 = m1.next(told);
            &&& SplashModel::fresh().action(Event::WindowConnected) == Some(
                request_timer(TimerSlot::Start),
            )
            &&& m1.action(Event::Timer(fired)).is_none()
            &&& m1.next(Event::Timer(fired)) == m1
            &&& m1.action(told).is_none()
            &&& m2.action(Event::Timer(fired)).is_none()
            &&& m2.next(Event::Timer(fired)) == m2
            &&& m2.state == SplashState::WaitingForStartTimer
        }),
{
}

/// A fresh controller that is connected, is handed a valid token for its
/// start timer and sees that timer fire broadcasts the request for the
/// main window, and never again: nothing that follows, the same timer
/// firing once more included, brings a second broadcast.
pub proof fn lemma_start_timer_starts_main_once(scheduled: TimerToken, later: Seq<Event>)
    requires
        scheduled.is_valid(),
    ensures
        ({
            let told = Event::TimerScheduled { slot: TimerSlot::Start, token: scheduled };
            let m2 = SplashModel::fresh().next(Event::WindowConnected).next(told);
            let m3 = m2.next(Event::Timer(scheduled));
            &&& m2.action(Event::Timer(scheduled)) == Some(start_main())
            &&& m3.state == SplashState::WaitingForMainAck
            &&& m3.action(Event::Timer(scheduled)).is_none()
            &&& !m3.actions(later).contains(start_main())
        }),
{
    let told = Event::TimerScheduled { slot: TimerSlot::Start, token: scheduled };
    let m3 = SplashModel::fresh().next(Event::WindowConnected).next(told).next(
        Event::Timer(scheduled),
    );
    lemma_actions_follow_script(m3, later);
}

/// A controller that has broadcast the request for the main window
/// answers the main window's word with one request for the close timer,
/// and with no other in what follows. The token that the host hands back
/// goes to the close slot, and the start slot is empty by then: the close
/// timer's token is none that the start slot holds.
pub proof fn lemma_main_ack_requests_close_timer(
    m: SplashModel,
    scheduled: TimerToken,
    later: Seq<Event>,
)
    requires
        m.wf(),
        m.state == SplashState::WaitingForMainAck,
        scheduled.is_valid(),
    ensures
        ({
            let ack = Event::Command(Command::MainWindowConnected);
            let told = Event::TimerScheduled { slot: TimerSlot::Close, token: scheduled };
            let m1 = m.next(ack);
            let m2 = m1.next(told);
            &&& m.action(ack) == Some(request_timer(TimerSlot::Close))
            &&& m1.state == SplashState::WaitingForCloseTimer
            &&& m1.action(told).is_none()
            &&& m2.close == scheduled
            &&& m2.start != scheduled
            &&& !m1.actions(later).contains(request_timer(TimerSlot::Close))
            &&& !m1.actions(later).contains(request_timer(TimerSlot::Start))
        }),
{
    let m1 = m.next(Event::Command(Command::MainWindowConnected));
    lemma_actions_follow_script(m1, later);
}

/// The close timer closes the window once: a controller that waits for
/// the timer named `m.close` closes the window when it fires, and takes
/// the same firing a second time, and anything else that follows, without
/// asking for anything.
pub proof fn lemma_close_timer_closes_once(m: SplashModel, later: Seq<Event>)
    requires
        m.state == SplashState::WaitingForCloseTimer,
        m.close.is_valid(),
    ensures
        ({
            let fire = Event::Timer(m.close);
            let m1 = m.next(fire);
            &&& m.action(fire) == Some(Action::CloseWindow)
            &&& m1.state == SplashState::Closed
            &&& m1.action(fire).is_none()
            &&& m1.next(fire) == m1
            &&& m1.actions(later) == Seq::<Action>::empty()
        }),
{
    lemma_closed_is_final(m.next(Event::Timer(m.close)), later);
}

/// The whole handshake: connected, handed a token for the start timer,
/// that timer fired, the main window's word, handed a token for the close
/// timer, that timer fired. The controller asks for the script, action by
/// action, and ends closed with no timer pending.
pub proof fn lemma_handshake(start: TimerToken, close: TimerToken)
    requires
        start.is_valid(),
        close.is_valid(),
    ensures
        ({
            let events = seq![
                Event::WindowConnected,
                Event::TimerScheduled { slot: TimerSlot::Start, token: start },
                Event::Timer(start),
                Event::Command(Command::MainWindowConnected),
                Event::TimerScheduled { slot: TimerSlot::Close, token: close },
                Event::Timer(close),
            ];
            &&& SplashModel::fresh().actions(events) == script()
            &&& SplashModel::fresh().run(events).state == SplashState::Closed
            &&& !SplashModel::fresh().run(events).start.is_valid()
            &&& !SplashModel::fresh().run(events).close.is_valid()
        }),
{
    let events = seq![
        Event::WindowConnected,
        Event::TimerScheduled { slot: TimerSlot::Start, token: start },
        Event::Timer(start),
        Event::Command(Command::MainWindowConnected),
        Event::TimerScheduled { slot: TimerSlot::Close, token: close },
        Event::Timer(close),
    ];
    let m0 = SplashModel::fresh();
    let m1 = m0.next(events[0]);
    let m2 = m1.next(events[1]);
    let m3 = m2.next(events[2]);
    let m4 = m3.next(events[3]);
    let m5 = m4.next(events[4]);
    let m6 = m5.next(events[5]);
    let e1 = events.drop_first();
    let e2 = e1.drop_first();
    let e3 = e2.drop_first();
    let e4 = e3.drop_first();
    let e5 = e4.drop_first();
    let e6 = e5.drop_first();
    assert(e6.len() == 0);
    assert(m6.run(e6) == m6);
    assert(m5.run(e5) == m6);
    assert(m4.run(e4) == m6);
    assert(m3.run(e3) == m6);
    assert(m2.run(e2) == m6);
    assert(m1.run(e1) == m6);
    assert(m0.run(events) == m6);
    assert(m6.state == SplashState::Closed);
    lemma_run_keeps_wf(m0, events);
    lemma_actions_follow_script(m0, events);
    assert(script().subrange(0, 4) =~= script());
}

} // verus!
