use splash_shell::event::{Action, Event, TimerToken};
use splash_shell::layout::{BoxConstraints, Extent, Size};
use splash_shell::titlebar::{
    BarItem, ButtonRole, Color, Icon, IconSlot, PaintOp, TitleBar, WindowButton, BAR_HEIGHT,
    BUTTON_WIDTH, DRAG_AREA_FLEX,
};
use splash_shell::window::WindowState;

const GREY: Color = Color { r: 128, g: 128, b: 128, a: 51 };
const RED: Color = Color { r: 230, g: 26, b: 26, a: 153 };

fn loose(max_width: Extent, max_height: Extent) -> BoxConstraints {
    BoxConstraints::new(Size::new(0, 0), Size { width: max_width, height: max_height })
}

#[test]
fn alt_icon_shows_while_restored() {
    let button = WindowButton::with_alt_icon(Icon::Image("restore"), Icon::Image("max"));
    assert_eq!(button.icon_slot(WindowState::Restored), IconSlot::Alternate);
    assert_eq!(button.icon_for(WindowState::Restored), &Icon::Image("max"));
}

#[test]
fn primary_icon_shows_while_maximized_or_minimized() {
    let button = WindowButton::with_alt_icon(Icon::Image("restore"), Icon::Image("max"));
    assert_eq!(button.icon_slot(WindowState::Maximized), IconSlot::Primary);
    assert_eq!(button.icon_slot(WindowState::Minimized), IconSlot::Primary);
    assert_eq!(button.icon_for(WindowState::Maximized), &Icon::Image("restore"));
    assert_eq!(button.icon_for(WindowState::Minimized), &Icon::Image("restore"));
}

#[test]
fn button_without_alt_icon_shows_primary() {
    let button = WindowButton::new(Icon::Image("min"));
    for state in [WindowState::Restored, WindowState::Maximized, WindowState::Minimized] {
        assert_eq!(button.icon_slot(state), IconSlot::Primary);
        assert_eq!(button.icon_for(state), &Icon::Image("min"));
    }
    assert_eq!(button.icon_in(IconSlot::Alternate), &Icon::Image("min"));
    assert_eq!(button.icon_in(IconSlot::Primary), &Icon::Image("min"));
}

#[test]
fn icon_in_gives_each_slot() {
    let button = WindowButton::with_alt_icon(Icon::Image(1), Icon::Image(2));
    assert_eq!(button.icon_in(IconSlot::Primary), &Icon::Image(1));
    assert_eq!(button.icon_in(IconSlot::Alternate), &Icon::Image(2));
}

#[test]
fn malformed_icon_source_gives_blank_button() {
    let parsed: Result<u32, String> = Err(String::from("not a drawing"));
    let button = WindowButton::new(Icon::from_parse(parsed));
    assert_eq!(button.icon, Icon::Blank);
    assert!(button.icon.is_blank());
    for state in [WindowState::Restored, WindowState::Maximized, WindowState::Minimized] {
        assert_eq!(button.icon_for(state), &Icon::Blank);
        assert_eq!(button.paint(state, false), vec![PaintOp::Clip, PaintOp::DrawIcon(IconSlot::Primary)]);
    }
}

#[test]
fn sound_icon_source_gives_its_drawing() {
    let parsed: Result<u32, String> = Ok(7);
    let icon = Icon::from_parse(parsed);
    assert_eq!(icon, Icon::Image(7));
    assert!(!icon.is_blank());
}

#[test]
fn default_button_is_blank_and_grey() {
    let button: WindowButton<u32> = WindowButton::default();
    assert_eq!(button, WindowButton { icon: Icon::Blank, alt_icon: None, highlight: GREY });
}

#[test]
fn constructors_set_their_fields() {
    assert_eq!(
        WindowButton::new(Icon::Image(1)),
        WindowButton { icon: Icon::Image(1), alt_icon: None, highlight: GREY }
    );
    assert_eq!(
        WindowButton::with_hightlight(Icon::Image(1), RED),
        WindowButton { icon: Icon::Image(1), alt_icon: None, highlight: RED }
    );
    assert_eq!(
        WindowButton::with_alt_icon(Icon::Image(1), Icon::Image(2)),
        WindowButton { icon: Icon::Image(1), alt_icon: Some(Icon::Image(2)), highlight: GREY }
    );
}

#[test]
fn highlight_colours() {
    assert_eq!(Color::hover(), GREY);
    assert_eq!(Color::danger(), RED);
    assert_eq!(Color::rgba8(1, 2, 3, 4), Color { r: 1, g: 2, b: 3, a: 4 });
}

#[test]
fn paint_fills_only_under_the_pointer() {
    let button = WindowButton::with_hightlight(Icon::Image(1), RED);
    assert_eq!(
        button.paint(WindowState::Maximized, true),
        vec![PaintOp::Clip, PaintOp::Fill(RED), PaintOp::DrawIcon(IconSlot::Primary)]
    );
    assert_eq!(
        button.paint(WindowState::Maximized, false),
        vec![PaintOp::Clip, PaintOp::DrawIcon(IconSlot::Primary)]
    );
}

#[test]
fn paint_draws_the_icon_of_the_state() {
    let button = WindowButton::with_alt_icon(Icon::Image(1), Icon::Image(2));
    assert_eq!(
        button.paint(WindowState::Restored, true),
        vec![PaintOp::Clip, PaintOp::Fill(GREY), PaintOp::DrawIcon(IconSlot::Alternate)]
    );
    assert_eq!(
        button.paint(WindowState::Minimized, false),
        vec![PaintOp::Clip, PaintOp::DrawIcon(IconSlot::Primary)]
    );
}

#[test]
fn button_is_46_by_32() {
    assert_eq!(BUTTON_WIDTH, 46);
    assert_eq!(BAR_HEIGHT, 32);
    let button = WindowButton::new(Icon::Image(1));
    assert_eq!(button.layout(&loose(Extent::Unbounded, Extent::Unbounded)), Size::new(46, 32));
    assert_eq!(button.layout(&loose(Extent::Units(800), Extent::Units(600))), Size::new(46, 32));
}

#[test]
fn button_yields_to_its_limits() {
    let button = WindowButton::new(Icon::Image(1));
    assert_eq!(button.layout(&loose(Extent::Units(40), Extent::Units(20))), Size::new(40, 20));
    let tight = BoxConstraints::new(Size::new(100, 50), Size::new(100, 50));
    assert_eq!(button.layout(&tight), Size::new(100, 50));
    let tall = BoxConstraints::new(Size::new(0, 40), Size { width: Extent::Unbounded, height: Extent::Unbounded });
    assert_eq!(button.layout(&tall), Size::new(46, 40));
}

#[test]
fn minimize_click_minimizes() {
    for state in [WindowState::Restored, WindowState::Maximized, WindowState::Minimized] {
        assert_eq!(
            ButtonRole::Minimize.on_click(state),
            Action::SetWindowState(WindowState::Minimized)
        );
    }
}

#[test]
fn toggle_click_maximizes_or_restores() {
    assert_eq!(
        ButtonRole::ToggleMaximize.on_click(WindowState::Restored),
        Action::SetWindowState(WindowState::Maximized)
    );
    assert_eq!(
        ButtonRole::ToggleMaximize.on_click(WindowState::Maximized),
        Action::SetWindowState(WindowState::Restored)
    );
    assert_eq!(
        ButtonRole::ToggleMaximize.on_click(WindowState::Minimized),
        Action::SetWindowState(WindowState::Restored)
    );
}

#[test]
fn close_click_quits() {
    for state in [WindowState::Restored, WindowState::Maximized, WindowState::Minimized] {
        assert_eq!(ButtonRole::Close.on_click(state), Action::Quit);
    }
}

#[test]
fn raw_bar_is_32_high_and_unsized() {
    let bar = TitleBar::raw();
    assert_eq!(bar.height, 32);
    assert_eq!(bar.size, Size::new(0, 0));
    assert_eq!(bar.size, Size::zero());
}

#[test]
fn bar_takes_all_width_and_its_own_height() {
    let mut bar = TitleBar::raw();
    let size = bar.layout(&loose(Extent::Units(800), Extent::Units(600)));
    assert_eq!(size, Size::new(800, 32));
    assert_eq!(bar.size, Size::new(800, 32));
    assert_eq!(bar.height, 32);
}

#[test]
fn bar_ignores_height_limits() {
    let mut bar = TitleBar::raw();
    assert_eq!(bar.layout(&loose(Extent::Units(640), Extent::Units(10))), Size::new(640, 32));
    let tall = BoxConstraints::new(Size::new(0, 100), Size::new(300, 200));
    assert_eq!(bar.layout(&tall), Size::new(300, 32));
    assert_eq!(bar.size, Size::new(300, 32));
    let open = loose(Extent::Unbounded, Extent::Unbounded);
    assert_eq!(bar.layout(&open), Size { width: Extent::Unbounded, height: Extent::Units(32) });
}

#[test]
fn bar_claims_the_drag_area_on_any_event() {
    let mut bar = TitleBar::raw();
    let before = bar;
    assert_eq!(bar.event(&Event::Other), Action::HandleTitlebar(true));
    assert_eq!(bar.event(&Event::WindowConnected), Action::HandleTitlebar(true));
    assert_eq!(bar.event(&Event::Timer(TimerToken::from_raw(4))), Action::HandleTitlebar(true));
    assert_eq!(bar, before);
}

#[test]
fn bar_paints_nothing() {
    assert_eq!(TitleBar::raw().paint(), vec![]);
}

#[test]
fn title_bar_row_has_its_six_items() {
    let row = TitleBar::new::<&str, ()>(Ok("min"), Ok("max"), Ok("restore"), Ok("exit"));
    assert_eq!(DRAG_AREA_FLEX, 1);
    assert_eq!(
        row.items,
        vec![
            BarItem::Spacer,
            BarItem::Label,
            BarItem::DragArea { bar: TitleBar::raw(), flex: 1 },
            BarItem::Button {
                role: ButtonRole::Minimize,
                button: WindowButton { icon: Icon::Image("min"), alt_icon: None, highlight: GREY },
            },
            BarItem::Button {
                role: ButtonRole::ToggleMaximize,
                button: WindowButton {
                    icon: Icon::Image("restore"),
                    alt_icon: Some(Icon::Image("max")),
                    highlight: GREY,
                },
            },
            BarItem::Button {
                role: ButtonRole::Close,
                button: WindowButton { icon: Icon::Image("exit"), alt_icon: None, highlight: RED },
            },
        ]
    );
}

#[test]
fn title_bar_row_survives_unreadable_icons() {
    let row = TitleBar::new::<&str, &str>(Err("bad"), Err("bad"), Ok("restore"), Err("bad"));
    assert_eq!(row.items.len(), 6);
    assert_eq!(
        row.items[3],
        BarItem::Button {
            role: ButtonRole::Minimize,
            button: WindowButton { icon: Icon::Blank, alt_icon: None, highlight: GREY },
        }
    );
    assert_eq!(
        row.items[4],
        BarItem::Button {
            role: ButtonRole::ToggleMaximize,
            button: WindowButton {
                icon: Icon::Image("restore"),
                alt_icon: Some(Icon::Blank),
                highlight: GREY,
            },
        }
    );
    assert_eq!(
        row.items[5],
        BarItem::Button {
            role: ButtonRole::Close,
            button: WindowButton { icon: Icon::Blank, alt_icon: None, highlight: RED },
        }
    );
}

#[test]
fn middle_button_shows_max_icon_while_restored() {
    let row = TitleBar::new::<&str, ()>(Ok("min"), Ok("max"), Ok("restore"), Ok("exit"));
    match &row.items[4] {
        BarItem::Button { role, button } => {
            assert_eq!(*role, ButtonRole::ToggleMaximize);
            assert_eq!(button.icon_for(WindowState::Restored), &Icon::Image("max"));
            assert_eq!(button.icon_for(WindowState::Maximized), &Icon::Image("restore"));
        }
        other => panic!("the fifth item is {:?}", other),
    }
}
