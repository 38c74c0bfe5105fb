use retclock::events::{
    initial_menu_checks, on_left_down, on_menu, ClickTracker, MenuCommand, MenuEffect, MenuIds,
};
use retclock::state::{ClockState, DisplayMode};
use retclock::window::{stay_on_top_style, style_with_bits, title_bar_style, TitleBarBits};

const MS: u64 = 1_000_000;

#[test]
fn initial_settings_and_menu_ticks_agree() {
    let s = ClockState::initial();
    assert_eq!(s, ClockState { show_seconds: true, mode: DisplayMode::Analog, title_bar_hidden: false });
    let m = initial_menu_checks();
    assert_eq!(m.show_seconds, s.show_seconds);
    assert!(!m.always_on_top);
    assert!(m.view_analog && !m.view_digital);
}

#[test]
fn menu_ids_follow_the_highest_reserved_id() {
    let ids = MenuIds::new(5999, 5006);
    assert_eq!(
        (ids.exit, ids.show_seconds, ids.always_on_top, ids.view_analog, ids.view_digital),
        (5006, 6000, 6001, 6002, 6003)
    );
    assert_eq!(ids.command(5006), Some(MenuCommand::Exit));
    assert_eq!(ids.command(6000), Some(MenuCommand::ShowSeconds));
    assert_eq!(ids.command(6001), Some(MenuCommand::AlwaysOnTop));
    assert_eq!(ids.command(6002), Some(MenuCommand::ViewAnalog));
    assert_eq!(ids.command(6003), Some(MenuCommand::ViewDigital));
    assert_eq!(ids.command(6004), None);
    assert_eq!(ids.command(5999), None);
}

#[test]
fn exit_wins_over_a_clashing_item() {
    let ids = MenuIds::new(10, 12);
    assert_eq!(ids.command(12), Some(MenuCommand::Exit));
}

#[test]
fn menu_commands() {
    let start = ClockState::initial();
    let mut s = start;
    assert_eq!(on_menu(&mut s, MenuCommand::Exit, Some(true)), MenuEffect::Close);
    assert_eq!(s, start);

    assert_eq!(on_menu(&mut s, MenuCommand::ShowSeconds, Some(false)), MenuEffect::Refresh);
    assert!(!s.show_seconds);
    assert_eq!(on_menu(&mut s, MenuCommand::ShowSeconds, None), MenuEffect::Refresh);
    assert!(!s.show_seconds);
    assert_eq!(on_menu(&mut s, MenuCommand::ShowSeconds, Some(true)), MenuEffect::Refresh);
    assert!(s.show_seconds);

    assert_eq!(on_menu(&mut s, MenuCommand::AlwaysOnTop, Some(true)), MenuEffect::SetStayOnTop(true));
    assert_eq!(on_menu(&mut s, MenuCommand::AlwaysOnTop, Some(false)), MenuEffect::SetStayOnTop(false));
    assert_eq!(on_menu(&mut s, MenuCommand::AlwaysOnTop, None), MenuEffect::Nothing);
    assert_eq!(s, start);

    assert_eq!(on_menu(&mut s, MenuCommand::ViewDigital, None), MenuEffect::Refresh);
    assert_eq!(s.mode, DisplayMode::Digital);
    assert_eq!(on_menu(&mut s, MenuCommand::ViewDigital, None), MenuEffect::Refresh);
    assert_eq!(s.mode, DisplayMode::Digital);
    assert_eq!(on_menu(&mut s, MenuCommand::ViewAnalog, Some(false)), MenuEffect::Refresh);
    assert_eq!(s.mode, DisplayMode::Analog);
    assert!(!s.title_bar_hidden);
}

#[test]
fn quick_close_clicks_switch_the_title_bar() {
    let mut s = ClockState::initial();
    let mut t = ClickTracker::new();
    assert_eq!(on_left_down(&mut s, &mut t, 1000 * MS, Some((50, 60))), None);
    assert_eq!(on_left_down(&mut s, &mut t, 1450 * MS, Some((56, 54))), Some(false));
    assert!(s.title_bar_hidden);
    assert!(t.last.is_none());
    // the click after a double click starts a new pair
    assert_eq!(on_left_down(&mut s, &mut t, 1451 * MS, Some((56, 54))), None);
    assert_eq!(on_left_down(&mut s, &mut t, 1452 * MS, Some((56, 54))), Some(true));
    assert!(!s.title_bar_hidden);
}

#[test]
fn slow_or_far_clicks_start_over() {
    let mut s = ClockState::initial();
    let mut t = ClickTracker::new();
    on_left_down(&mut s, &mut t, 0, Some((0, 0)));
    assert_eq!(on_left_down(&mut s, &mut t, 450 * MS + 1, Some((0, 0))), None);
    assert_eq!(t.last.unwrap().at_ns, 450 * MS + 1);
    assert_eq!(on_left_down(&mut s, &mut t, 451 * MS, Some((7, 0))), None);
    assert_eq!(on_left_down(&mut s, &mut t, 452 * MS, Some((7, -7))), None);
    assert!(!s.title_bar_hidden);
}

#[test]
fn clicks_without_position_count_at_the_fallback_point() {
    let mut s = ClockState::initial();
    let mut t = ClickTracker::new();
    on_left_down(&mut s, &mut t, 5, None);
    let last = t.last.unwrap();
    assert_eq!((last.x, last.y), (-9999, -9999));
    assert_eq!(on_left_down(&mut s, &mut t, 6, None), Some(false));
    on_left_down(&mut s, &mut t, 7, None);
    assert_eq!(on_left_down(&mut s, &mut t, 8, Some((-9993, -10005))), Some(true));
}

#[test]
fn a_click_stamped_before_the_last_one_waits_no_time() {
    let mut s = ClockState::initial();
    let mut t = ClickTracker::new();
    on_left_down(&mut s, &mut t, 10_000 * MS, Some((1, 1)));
    assert_eq!(on_left_down(&mut s, &mut t, 0, Some((1, 1))), Some(false));
}

#[test]
fn extreme_positions_do_not_overflow() {
    let mut s = ClockState::initial();
    let mut t = ClickTracker::new();
    on_left_down(&mut s, &mut t, 0, Some((i32::MAX, i32::MIN)));
    assert_eq!(on_left_down(&mut s, &mut t, 1, Some((i32::MIN, i32::MAX))), None);
}

fn bits() -> TitleBarBits {
    TitleBarBits { caption: 0x2000_0000, system_menu: 0x0800, minimize_box: 0x0400, maximize_box: 0x0200, close_box: 0x1000 }
}

#[test]
fn title_bar_bits_switch() {
    let mask: i64 = 0x2000_0000 | 0x0800 | 0x0400 | 0x0200 | 0x1000;
    let style: i64 = 0x0040 | 0x0800;
    assert_eq!(title_bar_style(style, bits(), true), style | mask);
    assert_eq!(title_bar_style(style, bits(), false), 0x0040);
    let hidden = title_bar_style(style, bits(), false);
    assert_eq!(title_bar_style(hidden, bits(), true), 0x0040 | mask);
    assert_eq!(title_bar_style(-1, bits(), false), !mask);
}

#[test]
fn stay_on_top_bit_switch() {
    assert_eq!(stay_on_top_style(0x0101, 0x8000, true), 0x8101);
    assert_eq!(stay_on_top_style(0x8101, 0x8000, false), 0x0101);
    assert_eq!(stay_on_top_style(0x0101, 0x8000, false), 0x0101);
    assert_eq!(style_with_bits(0, 0, true), 0);
}
