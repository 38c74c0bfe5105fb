use retclock::analog::{dial_hands, dial_layout, dial_ticks, footer_font, AnalogClock, HandKind};
use retclock::digital::{
    framed_date_font, framed_layout, framed_layout_in_range, framed_time_font, time_font_points,
    DigitalClock, TextExtent, FRAME_HEIGHT, FRAME_WIDTH,
};
use retclock::geometry::{half_toward_zero, rem_twelve, ClientSize, FontFamily, Rect, Rgb};
use retclock::state::{face_to_draw, ClockState, DisplayMode};
use retclock::time::ClockTime;
use retclock::traits::Clock;

fn size(width: i32, height: i32) -> ClientSize {
    ClientSize { width, height }
}

fn at(hour: i16, minute: i16, second: i16) -> ClockTime {
    ClockTime { year: 2024, month: 3, day: 9, hour, minute, second }
}

#[test]
fn dial_layout_of_opening_window() {
    let d = dial_layout(size(260, 300));
    assert_eq!(d.width, 260);
    assert_eq!(d.height, 300);
    assert_eq!(d.dial_height, 266);
    assert_eq!(d.radius, 120);
    assert_eq!(d.center_x, 130);
    assert_eq!(d.center_y, 133);
    assert_eq!(d.footer_x, 12);
    assert_eq!(d.footer_y, 276);
}

#[test]
fn dial_layout_of_empty_panel() {
    let d = dial_layout(size(0, -5));
    assert_eq!(d.width, 1);
    assert_eq!(d.height, 1);
    assert_eq!(d.dial_height, 24);
    assert_eq!(d.radius, 10);
    assert_eq!(d.center_x, 0);
    assert_eq!(d.center_y, 12);
    assert_eq!(d.footer_y, -23);
}

#[test]
fn dial_layout_of_wide_panel_follows_height() {
    let d = dial_layout(size(1000, 234));
    assert_eq!(d.dial_height, 200);
    assert_eq!(d.radius, 90);
    assert_eq!(d.center_x, 500);
    assert_eq!(d.center_y, 100);
}

#[test]
fn dial_stays_clear_of_panel_edges() {
    for (w, h) in [(40, 74), (41, 75), (400, 434), (333, 1000), (77, 120)] {
        let d = dial_layout(size(w, h));
        assert!(d.center_x - d.radius >= 10);
        assert!(d.center_x + d.radius + 10 <= d.width);
        assert!(d.center_y - d.radius >= 10);
        assert!(d.center_y + d.radius + 10 <= d.dial_height);
    }
}

#[test]
fn sixty_ticks_with_twelve_hour_marks() {
    let ticks = dial_ticks();
    assert_eq!(ticks.len(), 60);
    assert_eq!(ticks.iter().filter(|t| t.major).count(), 12);
    for (i, t) in ticks.iter().enumerate() {
        assert_eq!(t.index as usize, i);
        assert_eq!(t.major, i % 5 == 0);
        assert_eq!(t.outer_permille, 970);
        if t.major {
            assert_eq!((t.inner_permille, t.pen_width), (840, 2));
        } else {
            assert_eq!((t.inner_permille, t.pen_width), (900, 1));
        }
    }
}

#[test]
fn hands_for_quarter_past_three() {
    let hands = dial_hands(&at(15, 15, 30), true);
    assert_eq!(hands.len(), 3);
    assert_eq!(hands[0].kind, HandKind::Hour);
    assert_eq!((hands[0].position, hands[0].units_per_turn), (3 * 3600 + 15 * 60 + 30, 43200));
    assert_eq!((hands[0].length_permille, hands[0].pen_width), (550, 4));
    assert_eq!(hands[0].colour, Rgb { r: 0, g: 0, b: 0 });
    assert_eq!(hands[1].kind, HandKind::Minute);
    assert_eq!((hands[1].position, hands[1].units_per_turn), (930, 3600));
    assert_eq!((hands[1].length_permille, hands[1].pen_width), (780, 3));
    assert_eq!(hands[2].kind, HandKind::Second);
    assert_eq!((hands[2].position, hands[2].units_per_turn), (30, 60));
    assert_eq!((hands[2].length_permille, hands[2].pen_width), (840, 1));
    assert_eq!(hands[2].colour, Rgb { r: 180, g: 0, b: 0 });
}

#[test]
fn no_second_hand_without_seconds() {
    let hands = dial_hands(&at(9, 0, 59), false);
    assert_eq!(hands.len(), 2);
    assert_eq!(hands[0].kind, HandKind::Hour);
    assert_eq!(hands[1].kind, HandKind::Minute);
}

#[test]
fn hands_point_at_twelve_at_midnight_and_noon() {
    for h in [0, 12] {
        let hands = dial_hands(&at(h, 0, 0), true);
        assert!(hands.iter().all(|x| x.position == 0));
    }
}

#[test]
fn hour_hand_stays_whole_hours_from_minute_hand() {
    for (h, m, s) in [(0, 0, 0), (7, 59, 59), (23, 30, 1), (12, 1, 2), (-3, 4, 5)] {
        let hands = dial_hands(&at(h, m, s), true);
        assert_eq!((hands[0].position - hands[1].position) % 3600, 0);
    }
}

#[test]
fn hour_hand_of_negative_hour_keeps_its_sign() {
    let hands = dial_hands(&at(-13, 0, 0), false);
    assert_eq!(hands[0].position, -3600);
    assert_eq!(rem_twelve(-13), -1);
    assert_eq!(rem_twelve(23), 11);
    assert_eq!(rem_twelve(i16::MIN), -8);
}

#[test]
fn analog_clock_clamps_its_size_and_follows_its_settings() {
    let mut state = ClockState::initial();
    let c = AnalogClock::new(size(-4, 0), state);
    assert_eq!((c.width, c.height), (1, 1));
    assert_eq!(c.hands(&at(1, 2, 3)).len(), 3);
    state.show_seconds = false;
    let c = AnalogClock::new(size(300, 200), state);
    assert_eq!((c.width, c.height), (300, 200));
    assert_eq!(c.hands(&at(1, 2, 3)).len(), 2);
    assert_eq!(c.footer(&at(1, 2, 3)), "2024-03-09  01:02:03");
}

#[test]
fn fonts_of_the_faces() {
    let f = footer_font();
    assert_eq!((f.point_size, f.family, f.bold), (9, FontFamily::Swiss, false));
    let f = framed_time_font();
    assert_eq!((f.point_size, f.family, f.bold), (28, FontFamily::Modern, true));
    let f = framed_date_font();
    assert_eq!((f.point_size, f.family, f.bold), (11, FontFamily::Swiss, false));
}

#[test]
fn time_font_scales_with_the_panel() {
    assert_eq!(time_font_points(FRAME_WIDTH, FRAME_HEIGHT), 32);
    assert_eq!(time_font_points(520, 600), 64);
    assert_eq!(time_font_points(520, 300), 32);
    assert_eq!(time_font_points(130, 150), 16);
    assert_eq!(time_font_points(1, 1), 12);
    // 32 * 100 / 260 = 12.31 -> 12; 32 * 110 / 260 = 13.54 -> 14
    assert_eq!(time_font_points(100, 1000), 12);
    assert_eq!(time_font_points(110, 1000), 14);
    assert_eq!(time_font_points(i32::MAX, i32::MAX), 229064922);
}

#[test]
fn time_font_never_shrinks_as_the_panel_grows() {
    let mut last = 0;
    for w in (1..2000).step_by(7) {
        let pt = time_font_points(w, 3000);
        assert!(pt >= last && pt >= 12);
        last = pt;
    }
}

#[test]
fn digital_clock_new_and_its_lines() {
    let state = ClockState { show_seconds: false, mode: DisplayMode::Digital, title_bar_hidden: false };
    let c = DigitalClock::new(size(260, 300), state, 26);
    assert_eq!((c.width, c.height, c.time_font_pt, c.date_font_pt), (260, 300, 32, 26));
    assert_eq!(c.time_line(&at(8, 5, 9)), "08:05");
    assert_eq!(c.date_line(&at(8, 5, 9)), "2024/03/09");
    let f = c.time_font();
    assert_eq!((f.point_size, f.family, f.bold), (32, FontFamily::Modern, true));
    let f = c.date_font();
    assert_eq!((f.point_size, f.family, f.bold), (26, FontFamily::Swiss, false));
    let tiny = DigitalClock::new(size(0, 0), ClockState::initial(), 10);
    assert_eq!((tiny.width, tiny.height, tiny.time_font_pt), (1, 1, 12));
    assert_eq!(tiny.time_line(&at(8, 5, 9)), "08:05:09");
}

#[test]
fn stacked_gap_is_four_percent_of_height_but_at_least_six() {
    let c = DigitalClock::new(size(260, 300), ClockState::initial(), 26);
    assert_eq!(c.gap(), 12);
    let c = DigitalClock::new(size(260, 100), ClockState::initial(), 26);
    assert_eq!(c.gap(), 6);
    // 4% of 162 is 6.48 -> 6; of 163 is 6.52 -> 7
    let c = DigitalClock::new(size(260, 162), ClockState::initial(), 26);
    assert_eq!(c.gap(), 6);
    let c = DigitalClock::new(size(260, 163), ClockState::initial(), 26);
    assert_eq!(c.gap(), 7);
}

#[test]
fn stacked_layout_centres_the_block() {
    let c = DigitalClock::new(size(260, 300), ClockState::initial(), 26);
    let time = TextExtent { width: 101, height: 40 };
    let date = TextExtent { width: 80, height: 20 };
    assert!(c.layout_in_range(time, date));
    let p = c.layout(time, date);
    // block height 40 + 12 + 20 = 72, top (300 - 72) / 2 = 114
    assert_eq!((p.time_x, p.time_y), (79, 114));
    assert_eq!((p.date_x, p.date_y), (90, 166));
    assert_eq!(p.date_y - p.time_y, 40 + c.gap());
}

#[test]
fn stacked_layout_of_text_wider_than_panel_rounds_toward_zero() {
    let c = DigitalClock::new(size(50, 30), ClockState::initial(), 10);
    let time = TextExtent { width: 101, height: 40 };
    let date = TextExtent { width: 80, height: 20 };
    let p = c.layout(time, date);
    assert_eq!(p.time_x, -25);
    assert_eq!(p.date_x, -15);
    // block 40 + 6 + 20 = 66, (30 - 66) / 2 = -18
    assert_eq!(p.time_y, -18);
}

#[test]
fn stacked_layout_out_of_range_is_reported() {
    let c = DigitalClock::new(size(260, 300), ClockState::initial(), 26);
    let huge = TextExtent { width: 0, height: i32::MAX };
    assert!(!c.layout_in_range(huge, TextExtent { width: 0, height: 1 }));
}

#[test]
fn framed_layout_of_opening_window() {
    let time = TextExtent { width: 100, height: 30 };
    assert!(framed_layout_in_range(size(260, 300), time, 80));
    let l = framed_layout(size(260, 300), time, 80);
    assert_eq!(l.frame, Rect { x: 12, y: 12, width: 236, height: 276 });
    assert_eq!((l.text.time_x, l.text.time_y), (80, 113));
    assert_eq!((l.text.date_x, l.text.date_y), (90, 155));
}

#[test]
fn framed_layout_of_narrow_panel() {
    let time = TextExtent { width: 151, height: 31 };
    let l = framed_layout(size(100, 0), time, 100);
    assert_eq!(l.frame, Rect { x: 12, y: 12, width: 76, height: -23 });
    // (100 - 151) / 2 = -25 (toward zero); (1 - 31) / 2 - 22 = -37
    assert_eq!((l.text.time_x, l.text.time_y), (-25, -37));
    assert_eq!((l.text.date_x, l.text.date_y), (0, 6));
    assert!(!framed_layout_in_range(size(100, 100), TextExtent { width: i32::MIN, height: 0 }, 0));
}

#[test]
fn halving_rounds_toward_zero() {
    assert_eq!(half_toward_zero(7), 3);
    assert_eq!(half_toward_zero(-7), -3);
    assert_eq!(half_toward_zero(-1), 0);
    assert_eq!(half_toward_zero(i64::MIN), i64::MIN / 2);
}

#[test]
fn the_paint_draws_the_chosen_face() {
    let mut s = ClockState::initial();
    assert_eq!(face_to_draw(s), DisplayMode::Analog);
    s.mode = DisplayMode::Digital;
    assert_eq!(face_to_draw(s), DisplayMode::Digital);
}
