//! Windows as the host sees them: the state of a window, and the
//! description from which the host makes one.

use vstd::prelude::*;

verus! {

/// The state of a platform window.
#[derive(Clone, Copy, Debug, PartialEq, Eq)]
pub enum WindowState {
    Maximized,
    Minimized,
    Restored,
}

/// The widget tree that fills a window.
#[derive(Clone, Copy, Debug, PartialEq, Eq)]
pub enum WindowRoot {
    /// The splash screen, under its controller.
    Splash,
    /// The title bar above the counter, under the main window's controller.
    Main,
}

/// The description of a window to be made. A field that is `None` is left
/// to the host's default.
#[derive(Clone, Copy, Debug, PartialEq, Eq)]
pub struct WindowDesc {
    pub root: WindowRoot,
    /// Width and height, in display units.
    pub size: Option<(u32, u32)>,
    /// The position of the top left corner, in display units.
    pub position: Option<(i32, i32)>,
    pub resizable: Option<bool>,
    pub show_titlebar: Option<bool>,
    pub state: Option<WindowState>,
}

impl WindowDesc {
    /// A window around `root`, with every setting left to the host.
    pub fn new(root: WindowRoot) -> (desc: WindowDesc)
        ensures
            desc == (WindowDesc {
                root,
                size: None,
                position: None,
                resizable: None,
                show_titlebar: None,
                state: None,
            }),
    {
        WindowDesc {
            root,
            size: None,
            position: None,
            resizable: None,
            show_titlebar: None,
            state: None,
        }
    }

    /// Sets the window's size.
    pub fn window_size(self, width: u32, height: u32) -> (desc: WindowDesc)
        ensures
            desc == (WindowDesc { size: Some((width, height)), ..self }),
    {
        WindowDesc { size: Some((width, height)), ..self }
    }

    /// Sets the position of the window's top left corner.
    pub fn set_position(self, x: i32, y: i32) -> (desc: WindowDesc)
        ensures
            desc == (WindowDesc { position: Some((x, y)), ..self }),
    {
        WindowDesc { position: Some((x, y)), ..self }
    }

    /// Sets whether the user can resize the window.
    pub fn resizable(self, resizable: bool) -> (desc: WindowDesc)
        ensures
            desc == (WindowDesc { resizable: Some(resizable), ..self }),
    {
        WindowDesc { resizable: Some(resizable), ..self }
    }

    /// Sets whether the window has the platform's own title bar.
    pub fn show_titlebar(self, show: bool) -> (desc: WindowDesc)
        ensures
            desc == (WindowDesc { show_titlebar: Some(show), ..self }),
    {
        WindowDesc { show_titlebar: Some(show), ..self }
    }

    /// Sets the state in which the window opens.
    pub fn set_window_state(self, state: WindowState) -> (desc: WindowDesc)
        ensures
            desc == (WindowDesc { state: Some(state), ..self }),
    {
        WindowDesc { state: Some(state), ..self }
    }

    /// The splash window, as a value.
    pub open spec fn spec_splash() -> WindowDesc {
        WindowDesc {
            root: WindowRoot::Splash,
            size: Some((500u32, 300u32)),
            position: Some((1000i32, 500i32)),
            resizable: Some(false),
            show_titlebar: Some(false),
            state: Some(WindowState::Restored),
        }
    }

    /// The main window, as a value.
    pub open spec fn spec_main() -> WindowDesc {
        WindowDesc {
            root: WindowRoot::Main,
            size: None,
            position: None,
            resizable: None,
            show_titlebar: Some(false),
            state: Some(WindowState::Maximized),
        }
    }

    /// The splash window: 500 by 300 units at (1000, 500), restored, of fixed
    /// size and without the platform's title bar.
    pub fn splash() -> (desc: WindowDesc)
        ensures
            desc == Self::spec_splash(),
    {
        WindowDesc::new(WindowRoot::Splash)
            .window_size(500, 300)
            .set_position(1000, 500)
            .show_titlebar(false)
            .set_window_state(WindowState::Restored)
            .resizable(false)
    }

    /// The main window: maximised, without the platform's title bar.
    pub fn main() -> (desc: WindowDesc)
        ensures
            desc == Self::spec_main(),
    {
        WindowDesc::new(WindowRoot::Main)
            .set_window_state(WindowState::Maximized)
            .show_titlebar(false)
    }
}

} // verus!
