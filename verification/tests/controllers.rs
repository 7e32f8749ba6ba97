use splash_shell::app_data::AppData;
use splash_shell::delegate::{Delegate, Outcome};
use splash_shell::event::{Action, Command, Event, Handled, Target, TimerSlot, TimerToken};
use splash_shell::main_control::MainControl;
use splash_shell::window::{WindowDesc, WindowRoot, WindowState};

#[test]
fn app_data_starts_at_zero() {
    assert_eq!(AppData::new().count, 0);
}

#[test]
fn increment_counts_one_click() {
    let mut data = AppData::new();
    data.increment();
    assert_eq!(data.count, 1);
    data.increment();
    data.increment();
    assert_eq!(data.count, 3);
    let mut high = AppData { count: u64::MAX - 1 };
    high.increment();
    assert_eq!(high.count, u64::MAX);
}

#[test]
fn main_control_announces_its_window() {
    let mut control = MainControl;
    assert_eq!(
        control.event(&Event::WindowConnected),
        Some(Action::Submit { command: Command::MainWindowConnected, target: Target::Global })
    );
    assert_eq!(
        control.event(&Event::WindowConnected),
        Some(Action::Submit { command: Command::MainWindowConnected, target: Target::Global })
    );
}

#[test]
fn main_control_ignores_other_events() {
    let mut control = MainControl;
    assert_eq!(control.event(&Event::Other), None);
    assert_eq!(control.event(&Event::Timer(TimerToken::from_raw(3))), None);
    assert_eq!(control.event(&Event::Command(Command::StartMain)), None);
    assert_eq!(control.event(&Event::Command(Command::MainWindowConnected)), None);
    assert_eq!(
        control.event(&Event::TimerScheduled { slot: TimerSlot::Start, token: TimerToken::from_raw(3) }),
        None
    );
}

#[test]
fn delegate_makes_the_main_window() {
    let mut delegate = Delegate;
    let outcome = delegate.command(&Command::StartMain);
    assert_eq!(outcome.handled, Handled::Yes);
    assert!(outcome.handled.is_handled());
    assert_eq!(
        outcome.action,
        Some(Action::NewWindow(WindowDesc {
            root: WindowRoot::Main,
            size: None,
            position: None,
            resizable: None,
            show_titlebar: Some(false),
            state: Some(WindowState::Maximized),
        }))
    );
}

#[test]
fn delegate_leaves_other_commands_open() {
    let mut delegate = Delegate;
    let open = Outcome { handled: Handled::No, action: None };
    assert_eq!(delegate.command(&Command::MainWindowConnected), open);
    assert_eq!(delegate.command(&Command::Other), open);
    assert!(!open.handled.is_handled());
}

#[test]
fn delegate_answers_every_request() {
    let mut delegate = Delegate;
    let first = delegate.command(&Command::StartMain);
    let second = delegate.command(&Command::StartMain);
    assert_eq!(first, second);
    assert_eq!(first.handled, Handled::Yes);
}

#[test]
fn splash_window_description() {
    assert_eq!(
        WindowDesc::splash(),
        WindowDesc {
            root: WindowRoot::Splash,
            size: Some((500, 300)),
            position: Some((1000, 500)),
            resizable: Some(false),
            show_titlebar: Some(false),
            state: Some(WindowState::Restored),
        }
    );
}

#[test]
fn main_window_description() {
    let desc = WindowDesc::main();
    assert_eq!(desc.root, WindowRoot::Main);
    assert_eq!(desc.state, Some(WindowState::Maximized));
    assert_eq!(desc.show_titlebar, Some(false));
    assert_eq!(desc.size, None);
    assert_eq!(desc.position, None);
    assert_eq!(desc.resizable, None);
}

#[test]
fn window_desc_builders_set_one_field_each() {
    let bare = WindowDesc::new(WindowRoot::Main);
    assert_eq!(
        bare,
        WindowDesc {
            root: WindowRoot::Main,
            size: None,
            position: None,
            resizable: None,
            show_titlebar: None,
            state: None,
        }
    );
    assert_eq!(bare.window_size(3, 4), WindowDesc { size: Some((3, 4)), ..bare });
    assert_eq!(bare.set_position(-5, 6), WindowDesc { position: Some((-5, 6)), ..bare });
    assert_eq!(bare.resizable(true), WindowDesc { resizable: Some(true), ..bare });
    assert_eq!(bare.show_titlebar(true), WindowDesc { show_titlebar: Some(true), ..bare });
    assert_eq!(
        bare.set_window_state(WindowState::Minimized),
        WindowDesc { state: Some(WindowState::Minimized), ..bare }
    );
}
