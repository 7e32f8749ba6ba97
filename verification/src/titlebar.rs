//! The custom title bar and the buttons on it.

use vstd::prelude::*;
use crate::event::Action;
use crate::event::Event;
use crate::layout::BoxConstraints;
use crate::layout::Extent;
use crate::layout::Size;
use crate::window::WindowState;

verus! {

/// The height of the title bar and of its buttons, in display units.
pub const BAR_HEIGHT: u32 = 32;

/// The width of a window button, in display units.
pub const BUTTON_WIDTH: u32 = 46;

/// The share of the row's spare width that the bar's drag area takes.
pub const DRAG_AREA_FLEX: u32 = 1;

/// A colour as four 8-bit channels: red, green, blue and opacity.
#[derive(Clone, Copy, Debug, PartialEq, Eq)]
pub struct Color {
    pub r: u8,
    pub g: u8,
    pub b: u8,
    pub a: u8,
}

impl Color {
    /// The colour with the given channels.
    pub fn rgba8(r: u8, g: u8, b: u8, a: u8) -> (color: Color)
        ensures
            color == (Color { r, g, b, a }),
    {
        Color { r, g, b, a }
    }

    /// The highlight of an ordinary button: a translucent grey.
    pub open spec fn spec_hover() -> Color {
        Color { r: 128, g: 128, b: 128, a: 51 }
    }

    /// The highlight of a button that ends something: a translucent red.
    pub open spec fn spec_danger() -> Color {
        Color { r: 230, g: 26, b: 26, a: 153 }
    }

    /// The highlight of an ordinary button: a translucent grey.
    pub fn hover() -> (color: Color)
        ensures
            color == Self::spec_hover(),
    {
        Color::rgba8(128, 128, 128, 51)
    }

    /// The highlight of a button that ends something: a translucent red.
    pub fn danger() -> (color: Color)
        ensures
            color == Self::spec_danger(),
    {
        Color::rgba8(230, 26, 26, 153)
    }
}

/// What a button shows: a drawing of the front end's type `I`, or nothing.
#[derive(Clone, Copy, Debug, PartialEq, Eq)]
pub enum Icon<I> {
    /// The empty drawing.
    Blank,
    /// A drawing that was read from its source.
    Image(I),
}

impl<I> Icon<I> {
    /// The icon for what came of reading a drawing's source: the drawing
    /// where the source was sound, the blank icon where it was not.
    pub open spec fn spec_from_parse<E>(parsed: Result<I, E>) -> Icon<I> {
        match parsed {
            Ok(image) => Icon::Image(image),
            Err(_) => Icon::Blank,
        }
    }

    /// The icon for what came of reading a drawing's source. A source that
    /// could not be read is no failure: it gives the blank icon.
    pub fn from_parse<E>(parsed: Result<I, E>) -> (icon: Icon<I>)
        ensures
            icon == Self::spec_from_parse(parsed),
    {
        match parsed {
            Ok(image) => Icon::Image(image),
            Err(_) => Icon::Blank,
        }
    }

    /// Whether the icon is the empty drawing.
    pub fn is_blank(&self) -> (blank: bool)
        ensures
            blank == (*self is Blank),
    {
        match self {
            Icon::Blank => true,
            Icon::Image(_) => false,
        }
    }
}

/// Which of a button's two icons.
#[derive(Clone, Copy, Debug, PartialEq, Eq)]
pub enum IconSlot {
    Primary,
    Alternate,
}

/// One step of painting a widget, within the widget's own rectangle.
#[derive(Clone, Copy, Debug, PartialEq, Eq)]
pub enum PaintOp {
    /// Confine all that follows to the widget's rectangle.
    Clip,
    /// Fill the widget's rectangle with the colour.
    Fill(Color),
    /// Draw the button's icon in the slot.
    DrawIcon(IconSlot),
}

/// A button of the title bar: an icon that lights up under the pointer.
#[derive(Clone, Copy, Debug, PartialEq, Eq)]
pub struct WindowButton<I> {
    /// The icon that the button shows.
    pub icon: Icon<I>,
    /// The icon that it shows instead while the window is restored, if it
    /// has one.
    pub alt_icon: Option<Icon<I>>,
    /// The colour that fills it while the pointer is over it.
    pub highlight: Color,
}

impl<I> WindowButton<I> {
    /// A button with a blank icon, no alternate icon and the grey
    /// highlight.
    pub open spec fn spec_default() -> WindowButton<I> {
        WindowButton { icon: Icon::Blank, alt_icon: None, highlight: Color::spec_hover() }
    }

    /// A button that shows `icon`, with the grey highlight.
    pub open spec fn spec_new(icon: Icon<I>) -> WindowButton<I> {
        WindowButton { icon, ..Self::spec_default() }
    }

    /// A button that shows `icon`, with a highlight of its own.
    pub open spec fn spec_with_hightlight(icon: Icon<I>, highlight: Color) -> WindowButton<I> {
        WindowButton { icon, highlight, ..Self::spec_default() }
    }

    /// A button that shows `alt_icon` while the window is restored and
    /// `icon` otherwise, with the grey highlight.
    pub open spec fn spec_with_alt_icon(icon: Icon<I>, alt_icon: Icon<I>) -> WindowButton<I> {
        WindowButton { icon, alt_icon: Some(alt_icon), ..Self::spec_default() }
    }

    /// A button with a blank icon, no alternate icon and the grey
    /// highlight.
    pub fn default() -> (button: WindowButton<I>)
        ensures
            button == Self::spec_default(),
    {
        WindowButton { icon: Icon::Blank, alt_icon: None, highlight: Color::hover() }
    }

    /// A button that shows `icon`, with the grey highlight.
    pub fn new(icon: Icon<I>) -> (button: WindowButton<I>)
        ensures
            button == Self::spec_new(icon),
    {
        WindowButton { icon, ..Self::default() }
    }

    /// A button that shows `icon`, with a highlight of its own.
    pub fn with_hightlight(icon: Icon<I>, highlight: Color) -> (button: WindowButton<I>)
        ensures
            button == Self::spec_with_hightlight(icon, highlight),
    {
        WindowButton { icon, highlight, ..Self::default() }
    }

    /// A button that shows `alt_icon` while the window is restored and
    /// `icon` otherwise, with the grey highlight.
    pub fn with_alt_icon(icon: Icon<I>, alt_icon: Icon<I>) -> (button: WindowButton<I>)
        ensures
            button == Self::spec_with_alt_icon(icon, alt_icon),
    {
        WindowButton { icon, alt_icon: Some(alt_icon), ..Self::default() }
    }

    /// The slot of the icon that shows while the window is in `state`: the
    /// alternate one where the button has one and the window is restored,
    /// the primary one in every other case.
    pub open spec fn spec_icon_slot(self, state: WindowState) -> IconSlot {
        if self.alt_icon is Some && state == WindowState::Restored {
            IconSlot::Alternate
        } else {
            IconSlot::Primary
        }
    }

    /// The icon in `slot`. A button without an alternate icon has its
    /// primary icon in both.
    pub open spec fn spec_icon_in(self, slot: IconSlot) -> Icon<I> {
        match (slot, self.alt_icon) {
            (IconSlot::Alternate, Some(alt)) => alt,
            _ => self.icon,
        }
    }

    /// The steps of painting the button: clip, fill with the highlight
    /// where the pointer is over the button, and the icon last.
    pub open spec fn spec_paint(self, state: WindowState, hot: bool) -> Seq<PaintOp> {
        if hot {
            seq![
                PaintOp::Clip,
                PaintOp::Fill(self.highlight),
                PaintOp::DrawIcon(self.spec_icon_slot(state)),
            ]
        } else {
            seq![PaintOp::Clip, PaintOp::DrawIcon(self.spec_icon_slot(state))]
        }
    }

    /// The slot of the icon that shows while the window is in `state`.
    pub fn icon_slot(&self, state: WindowState) -> (slot: IconSlot)
        ensures
            slot == self.spec_icon_slot(state),
            self.alt_icon is Some && state == WindowState::Restored ==> slot
                == IconSlot::Alternate,
            self.alt_icon is None || state != WindowState::Restored ==> slot == IconSlot::Primary,
    {
        match (&self.alt_icon, state) {
            (Some(_), WindowState::Restored) => IconSlot::Alternate,
            _ => IconSlot::Primary,
        }
    }

    /// The icon in `slot`.
    pub fn icon_in(&self, slot: IconSlot) -> (icon: &Icon<I>)
        ensures
            *icon == self.spec_icon_in(slot),
    {
        match (slot, &self.alt_icon) {
            (IconSlot::Alternate, Some(alt)) => alt,
            _ => &self.icon,
        }
    }

    /// The icon that shows while the window is in `state`.
    pub fn icon_for(&self, state: WindowState) -> (icon: &Icon<I>)
        ensures
            *icon == self.spec_icon_in(self.spec_icon_slot(state)),
            self.alt_icon is Some && state == WindowState::Restored ==> Some(*icon)
                == self.alt_icon,
            self.alt_icon is None || state != WindowState::Restored ==> *icon == self.icon,
    {
        self.icon_in(self.icon_slot(state))
    }

    /// The button's size within the limits `bc`: 46 by 32 units where the
    /// limits allow it.
    pub fn layout(&self, bc: &BoxConstraints) -> (size: Size)
        ensures
            size == bc.spec_constrain(
                Size { width: Extent::Units(BUTTON_WIDTH), height: Extent::Units(BAR_HEIGHT) },
            ),
    {
        bc.constrain(Size::new(BUTTON_WIDTH, BAR_HEIGHT))
    }

    /// The steps of painting the button while the window is in `state` and
    /// the pointer is over the button (`hot`) or not.
    pub fn paint(&self, state: WindowState, hot: bool) -> (ops: Vec<PaintOp>)
        ensures
            ops@ == self.spec_paint(state, hot),
    {
        let slot = self.icon_slot(state);
        let mut ops: Vec<PaintOp> = Vec::new();
        ops.push(PaintOp::Clip);
        if hot {
            ops.push(PaintOp::Fill(self.highlight));
        }
        ops.push(PaintOp::DrawIcon(slot));
        assert(ops@ =~= self.spec_paint(state, hot));
        ops
    }
}

/// What a click on a button of the title bar does.
#[derive(Clone, Copy, Debug, PartialEq, Eq)]
pub enum ButtonRole {
    /// Minimises the window.
    Minimize,
    /// Maximises a restored window, and restores any other.
    ToggleMaximize,
    /// Ends the application.
    Close,
}

impl ButtonRole {
    /// What a click asks of the host while the window is in `state`.
    pub open spec fn spec_on_click(self, state: WindowState) -> Action {
        match self {
            ButtonRole::Minimize => Action::SetWindowState(WindowState::Minimized),
            ButtonRole::ToggleMaximize => if state == WindowState::Restored {
                Action::SetWindowState(WindowState::Maximized)
            } else {
                Action::SetWindowState(WindowState::Restored)
            },
            ButtonRole::Close => Action::Quit,
        }
    }

    /// What a click asks of the host while the window is in `state`.
    pub fn on_click(self, state: WindowState) -> (action: Action)
        ensures
            action == self.spec_on_click(state),
    {
        match self {
            ButtonRole::Minimize => Action::SetWindowState(WindowState::Minimized),
            ButtonRole::ToggleMaximize => match state {
                WindowState::Restored => Action::SetWindowState(WindowState::Maximized),
                _ => Action::SetWindowState(WindowState::Restored),
            },
            ButtonRole::Close => Action::Quit,
        }
    }
}

/// The bare bar: the area by which the user drags the window. It draws
/// nothing of its own.
#[derive(Clone, Copy, Debug, PartialEq, Eq)]
pub struct TitleBar {
    /// The bar's height.
    pub height: u32,
    /// The size that the bar took when it was last laid out.
    pub size: Size,
}

/// One item of the title bar's row.
#[derive(Clone, Copy, Debug, PartialEq, Eq)]
pub enum BarItem<I> {
    /// A gap of the host's default width.
    Spacer,
    /// The window's title.
    Label,
    /// The bare bar, as wide as the row can spare, by the given share.
    DragArea { bar: TitleBar, flex: u32 },
    /// A window button and what a click on it does.
    Button { role: ButtonRole, button: WindowButton<I> },
}

/// The title bar as a whole: its items from left to right, aligned to the
/// top of the window.
#[derive(Clone, Debug, PartialEq, Eq)]
pub struct TitleBarRow<I> {
    pub items: Vec<BarItem<I>>,
}

impl TitleBar {
    /// The bare bar before any layout.
    pub open spec fn spec_raw() -> TitleBar {
        TitleBar { height: BAR_HEIGHT, size: Size::spec_zero() }
    }

    /// The items of the title bar, from left to right: a gap, the title,
    /// the drag area, and the buttons that minimise, that maximise or
    /// restore, and that close. The middle button shows `restore` and, while
    /// the window is restored, `max`; the last has the red highlight.
    pub open spec fn spec_items<I>(
        min: Icon<I>,
        max: Icon<I>,
        restore: Icon<I>,
        exit: Icon<I>,
    ) -> Seq<BarItem<I>> {
        seq![
            BarItem::Spacer,
            BarItem::Label,
            BarItem::DragArea { bar: Self::spec_raw(), flex: DRAG_AREA_FLEX },
            BarItem::Button { role: ButtonRole::Minimize, button: WindowButton::spec_new(min) },
            BarItem::Button {
                role: ButtonRole::ToggleMaximize,
                button: WindowButton::spec_with_alt_icon(restore, max),
            },
            BarItem::Button {
                role: ButtonRole::Close,
                button: WindowButton::spec_with_hightlight(exit, Color::spec_danger()),
            },
        ]
    }

    /// The bare bar before any layout: 32 units high, of no size yet.
    pub fn raw() -> (bar: TitleBar)
        ensures
            bar == Self::spec_raw(),
    {
        TitleBar { height: BAR_HEIGHT, size: Size::zero() }
    }

    /// The whole title bar, from what came of reading the four icons'
    /// sources. An icon whose source could not be read is blank; the bar is
    /// made all the same.
    pub fn new<I, E>(
        min: Result<I, E>,
        max: Result<I, E>,
        restore: Result<I, E>,
        exit: Result<I, E>,
    ) -> (row: TitleBarRow<I>)
        ensures
            row.items@ == Self::spec_items(
                Icon::spec_from_parse(min),
                Icon::spec_from_parse(max),
                Icon::spec_from_parse(restore),
                Icon::spec_from_parse(exit),
            ),
    {
        let min_icon = Icon::from_parse(min);
        let max_icon = Icon::from_parse(max);
        let restore_icon = Icon::from_parse(restore);
        let exit_icon = Icon::from_parse(exit);
        let mut items: Vec<BarItem<I>> = Vec::new();
        items.push(BarItem::Spacer);
        items.push(BarItem::Label);
        items.push(BarItem::DragArea { bar: TitleBar::raw(), flex: DRAG_AREA_FLEX });
        items.push(
            BarItem::Button { role: ButtonRole::Minimize, button: WindowButton::new(min_icon) },
        );
        items.push(
            BarItem::Button {
                role: ButtonRole::ToggleMaximize,
                button: WindowButton::with_alt_icon(restore_icon, max_icon),
            },
        );
        items.push(
            BarItem::Button {
                role: ButtonRole::Close,
                button: WindowButton::with_hightlight(exit_icon, Color::danger()),
            },
        );
        assert(items@ =~= Self::spec_items(min_icon, max_icon, restore_icon, exit_icon));
        TitleBarRow { items }
    }

    /// The bar's answer to an event of any kind: its area is the window's
    /// title bar.
    pub fn event(&mut self, event: &Event) -> (action: Action)
        ensures
            action == Action::HandleTitlebar(true),
            *final(self) == *old(self),
    {
        Action::HandleTitlebar(true)
    }

    /// The bar's size within the limits `bc`: all the width that they
    /// allow, and the bar's own height whatever they say of height. The bar
    /// keeps the size.
    pub fn layout(&mut self, bc: &BoxConstraints) -> (size: Size)
        ensures
            size == (Size { width: bc.max.width, height: Extent::Units(old(self).height) }),
            final(self).size == size,
            final(self).height == old(self).height,
    {
        let size = Size { width: bc.max.width, height: Extent::Units(self.height) };
        self.size = size;
        size
    }

    /// The steps of painting the bare bar: none.
    pub fn paint(&self) -> (ops: Vec<PaintOp>)
        ensures
            ops@ == Seq::<PaintOp>::empty(),
    {
        Vec::new()
    }
}

} // verus!
