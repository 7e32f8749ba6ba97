//! What holds of the title bar's buttons however they were made.

use vstd::prelude::*;
use crate::event::Action;
use crate::titlebar::BarItem;
use crate::titlebar::ButtonRole;
use crate::titlebar::Color;
use crate::titlebar::Icon;
use crate::titlebar::IconSlot;
use crate::titlebar::PaintOp;
use crate::titlebar::TitleBar;
use crate::titlebar::WindowButton;
use crate::window::WindowState;

verus! {

/// A button made with an alternate icon shows the alternate icon while the
/// window is restored, and its primary icon while the window is maximised
/// or minimised.
pub proof fn lemma_alt_icon_shows_while_restored<I>(
    icon: Icon<I>,
    alt_icon: Icon<I>,
    state: WindowState,
)
    ensures
        ({
            let button = WindowButton::spec_with_alt_icon(icon, alt_icon);
            let shown = button.spec_icon_in(button.spec_icon_slot(state));
            &&& state == WindowState::Restored ==> shown == alt_icon
            &&& state == WindowState::Maximized ==> shown == icon
            &&& state == WindowState::Minimized ==> shown == icon
        }),
{
}

/// A button made without an alternate icon shows its primary icon whatever
/// the window's state, and whichever slot is asked for.
pub proof fn lemma_single_icon_always_shows<I>(
    icon: Icon<I>,
    highlight: Color,
    state: WindowState,
    slot: IconSlot,
)
    ensures
        ({
            let button = WindowButton::spec_with_hightlight(icon, highlight);
            &&& button.spec_icon_slot(state) == IconSlot::Primary
            &&& button.spec_icon_in(slot) == icon
        }),
        WindowButton::spec_new(icon) == WindowButton::spec_with_hightlight(
            icon,
            Color::spec_hover(),
        ),
{
}

/// A button made from a source that could not be read is made all the
/// same, and shows the blank icon in every state of the window.
pub proof fn lemma_unreadable_icon_is_blank<I, E>(error: E, state: WindowState)
    ensures
        ({
            let button = WindowButton::spec_new(Icon::<I>::spec_from_parse(Err::<I, E>(error)));
            button.spec_icon_in(button.spec_icon_slot(state)) == Icon::<I>::Blank
        }),
{
}

/// Painting a button always clips first and draws the icon last, and fills
/// the button with its highlight in between exactly when the pointer is
/// over it.
pub proof fn lemma_paint_order<I>(button: WindowButton<I>, state: WindowState, hot: bool)
    ensures
        ({
            let ops = button.spec_paint(state, hot);
            &&& ops.first() == PaintOp::Clip
            &&& ops.last() == PaintOp::DrawIcon(button.spec_icon_slot(state))
            &&& ops.contains(PaintOp::Fill(button.highlight)) <==> hot
            &&& ops.len() == if hot { 3int } else { 2int }
        }),
{
    let ops = button.spec_paint(state, hot);
    if hot {
        assert(ops[1] == PaintOp::Fill(button.highlight));
    }
}

/// The title bar has three buttons, whatever came of reading the icons:
/// after the gap, the title and the drag area stand the buttons that
/// minimise, that maximise or restore, and that close, in that order.
pub proof fn lemma_bar_has_three_buttons<I>(
    min: Icon<I>,
    max: Icon<I>,
    restore: Icon<I>,
    exit: Icon<I>,
)
    ensures
        ({
            let items = TitleBar::spec_items(min, max, restore, exit);
            &&& items.len() == 6
            &&& items[0] is Spacer
            &&& items[1] is Label
            &&& items[2] is DragArea
            &&& items[3] is Button && items[3]->role == ButtonRole::Minimize
            &&& items[4] is Button && items[4]->role == ButtonRole::ToggleMaximize
            &&& items[5] is Button && items[5]->role == ButtonRole::Close
        }),
{
}

/// The middle button undoes itself: a click on it while the window is
/// restored asks for the maximised window, and a click while the window is
/// maximised or minimised asks for the restored one.
pub proof fn lemma_toggle_alternates(state: WindowState)
    ensures
        ButtonRole::ToggleMaximize.spec_on_click(WindowState::Restored)
            == Action::SetWindowState(WindowState::Maximized),
        state != WindowState::Restored ==> ButtonRole::ToggleMaximize.spec_on_click(state)
            == Action::SetWindowState(WindowState::Restored),
{
}

} // verus!
