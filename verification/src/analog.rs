//! The analog face: the dial's geometry, its sixty tick marks and its hands.

use vstd::prelude::*;
use crate::geometry::{at_least_one, max_int, min_int, rem_toward_zero, rem_twelve, ClientSize, FontFamily, FontSpec, Rgb};
use crate::state::ClockState;
use crate::time::{footer_spec, footer_text, ClockTime};

verus! {

/// The height kept free under the dial for the date and time line.
pub const FOOTER_HEIGHT: i32 = 34;
/// The smallest height the dial is given.
pub const MIN_DIAL_HEIGHT: i32 = 24;
/// The space left between the dial and the panel's edge.
pub const DIAL_MARGIN: i32 = 10;
/// The smallest radius the dial is given.
pub const MIN_RADIUS: i32 = 10;
/// The number of tick marks around the dial.
pub const TICK_COUNT: u32 = 60;

/// An analog face: the clock's settings and the panel size it was made for.
#[derive(Clone, Copy, Debug, PartialEq, Eq)]
pub struct AnalogClock {
    pub state: ClockState,
    pub width: i32,
    pub height: i32,
}

/// Where the dial and the line under it go in a panel.
#[derive(Clone, Copy, Debug, PartialEq, Eq)]
pub struct DialLayout {
    /// The panel's width, at least 1.
    pub width: i32,
    /// The panel's height, at least 1.
    pub height: i32,
    /// The height of the area the dial is centred in.
    pub dial_height: i32,
    pub radius: i32,
    pub center_x: i32,
    pub center_y: i32,
    /// Where the date and time line starts.
    pub footer_x: i32,
    pub footer_y: i32,
}

/// The dial layout for a panel of the given size, as integers.
pub open spec fn dial_layout_spec(size: ClientSize) -> DialLayout {
    let w = at_least_one(size.width as int);
    let h = at_least_one(size.height as int);
    let dial_h = max_int(h - 34, 24);
    let radius = max_int(min_int(w, dial_h) / 2 - 10, 10);
    DialLayout {
        width: w as i32,
        height: h as i32,
        dial_height: dial_h as i32,
        radius: radius as i32,
        center_x: (w / 2) as i32,
        center_y: (dial_h / 2) as i32,
        footer_x: 12,
        footer_y: (h - 24) as i32,
    }
}

/// Lays the dial out in a panel of the given size: the dial sits in the
/// panel less a footer of 34 pixels (but at least 24 pixels high), is
/// centred there, and keeps a margin of 10 pixels (its radius never
/// falling under 10).
pub fn dial_layout(size: ClientSize) -> (d: DialLayout)
    ensures
        d == dial_layout_spec(size),
{
    let width = if size.width >= 1 { size.width } else { 1 };
    let height = if size.height >= 1 { size.height } else { 1 };
    let dial_height = if height - FOOTER_HEIGHT >= MIN_DIAL_HEIGHT { height - FOOTER_HEIGHT } else { MIN_DIAL_HEIGHT };
    let side = if width <= dial_height { width } else { dial_height };
    let r = side / 2 - DIAL_MARGIN;
    let radius = if r >= MIN_RADIUS { r } else { MIN_RADIUS };
    DialLayout {
        width,
        height,
        dial_height,
        radius,
        center_x: width / 2,
        center_y: dial_height / 2,
        footer_x: 12,
        footer_y: height - 24,
    }
}

/// The font of the date and time line under the dial.
pub fn footer_font() -> (f: FontSpec)
    ensures
        f == (FontSpec { point_size: 9, family: FontFamily::Swiss, bold: false }),
{
    FontSpec { point_size: 9, family: FontFamily::Swiss, bold: false }
}

/// One tick mark: it runs from `inner_permille` to `outer_permille`
/// thousandths of the radius, at `index` sixtieths of a turn from twelve.
#[derive(Clone, Copy, Debug, PartialEq, Eq)]
pub struct Tick {
    pub index: u32,
    pub major: bool,
    pub inner_permille: u32,
    pub outer_permille: u32,
    pub pen_width: i32,
}

/// The tick at `i` sixtieths of a turn: every fifth one marks an hour and is
/// longer and thicker.
pub open spec fn tick_spec(i: int) -> Tick {
    let major = i % 5 == 0;
    Tick {
        index: i as u32,
        major,
        inner_permille: if major { 840 } else { 900 },
        outer_permille: 970,
        pen_width: if major { 2 } else { 1 },
    }
}

/// The sixty tick marks of the dial, clockwise from twelve.
pub fn dial_ticks() -> (ticks: Vec<Tick>)
    ensures
        ticks.len() == 60,
        forall|i: int| 0 <= i < 60 ==> #[trigger] ticks[i] == tick_spec(i),
{
    let mut ticks: Vec<Tick> = Vec::new();
    let mut i: u32 = 0;
    while i < TICK_COUNT
        invariant
            i <= 60,
            ticks.len() == i,
            forall|j: int| 0 <= j < i ==> #[trigger] ticks[j] == tick_spec(j),
        decreases 60 - i,
    {
        let major = i % 5 == 0;
        ticks.push(Tick {
            index: i,
            major,
            inner_permille: if major { 840 } else { 900 },
            outer_permille: 970,
            pen_width: if major { 2 } else { 1 },
        });
        i = i + 1;
    }
    ticks
}

/// The three hands of the dial.
#[derive(Clone, Copy, Debug, PartialEq, Eq, Structural)]
pub enum HandKind {
    Hour,
    Minute,
    Second,
}

/// One hand: it points `position / units_per_turn` of a turn clockwise from
/// twelve and reaches `length_permille` thousandths of the radius.
#[derive(Clone, Copy, Debug, PartialEq, Eq)]
pub struct Hand {
    pub kind: HandKind,
    pub position: i64,
    pub units_per_turn: i64,
    pub length_permille: u32,
    pub pen_width: i32,
    pub colour: Rgb,
}

/// The position of the hour hand, in seconds of a twelve-hour turn.
pub open spec fn hour_position(t: ClockTime) -> int {
    rem_toward_zero(t.hour as int, 12) * 3600 + t.minute * 60 + t.second
}

/// The position of the minute hand, in seconds of an hour's turn.
pub open spec fn minute_position(t: ClockTime) -> int {
    t.minute * 60 + t.second
}

pub open spec fn black() -> Rgb {
    Rgb { r: 0, g: 0, b: 0 }
}

pub open spec fn second_hand_red() -> Rgb {
    Rgb { r: 180, g: 0, b: 0 }
}

pub open spec fn hour_hand(t: ClockTime) -> Hand {
    Hand {
        kind: HandKind::Hour,
        position: hour_position(t) as i64,
        units_per_turn: 43200,
        length_permille: 550,
        pen_width: 4,
        colour: black(),
    }
}

pub open spec fn minute_hand(t: ClockTime) -> Hand {
    Hand {
        kind: HandKind::Minute,
        position: minute_position(t) as i64,
        units_per_turn: 3600,
        length_permille: 780,
        pen_width: 3,
        colour: black(),
    }
}

pub open spec fn second_hand(t: ClockTime) -> Hand {
    Hand {
        kind: HandKind::Second,
        position: t.second as i64,
        units_per_turn: 60,
        length_permille: 840,
        pen_width: 1,
        colour: second_hand_red(),
    }
}

/// The hands to draw, in drawing order: hour, minute, and the second hand
/// when seconds are shown.
pub open spec fn hands_spec(t: ClockTime, show_seconds: bool) -> Seq<Hand> {
    if show_seconds {
        seq![hour_hand(t), minute_hand(t), second_hand(t)]
    } else {
        seq![hour_hand(t), minute_hand(t)]
    }
}

/// The hands that show `t`, the second hand only when `show_seconds`.
pub fn dial_hands(t: &ClockTime, show_seconds: bool) -> (hands: Vec<Hand>)
    ensures
        hands@ == hands_spec(*t, show_seconds),
{
    let black = Rgb { r: 0, g: 0, b: 0 };
    let hour12 = rem_twelve(t.hour) as i64;
    let minute_pos: i64 = (t.minute as i64) * 60 + (t.second as i64);
    let mut hands: Vec<Hand> = Vec::new();
    hands.push(Hand {
        kind: HandKind::Hour,
        position: hour12 * 3600 + minute_pos,
        units_per_turn: 43200,
        length_permille: 550,
        pen_width: 4,
        colour: black,
    });
    hands.push(Hand {
        kind: HandKind::Minute,
        position: minute_pos,
        units_per_turn: 3600,
        length_permille: 780,
        pen_width: 3,
        colour: black,
    });
    if show_seconds {
        hands.push(Hand {
            kind: HandKind::Second,
            position: t.second as i64,
            units_per_turn: 60,
            length_permille: 840,
            pen_width: 1,
            colour: Rgb { r: 180, g: 0, b: 0 },
        });
    }
    proof {
        assert(hands@ =~= hands_spec(*t, show_seconds));
    }
    hands
}

impl AnalogClock {
    /// An analog face for a panel of the given size; a size under one pixel
    /// counts as one.
    pub fn new(size: ClientSize, state: ClockState) -> (c: AnalogClock)
        ensures
            c.state == state,
            c.width == at_least_one(size.width as int),
            c.height == at_least_one(size.height as int),
    {
        AnalogClock {
            state,
            width: if size.width >= 1 { size.width } else { 1 },
            height: if size.height >= 1 { size.height } else { 1 },
        }
    }

    /// The date and time line under the dial.
    pub fn footer(&self, t: &ClockTime) -> (s: String)
        ensures
            s@ == footer_spec(*t),
    {
        footer_text(t)
    }

    /// The hands this face draws for `t`, by its own settings.
    pub fn hands(&self, t: &ClockTime) -> (hands: Vec<Hand>)
        ensures
            hands@ == hands_spec(*t, self.state.show_seconds),
    {
        dial_hands(t, self.state.show_seconds)
    }
}


/// The dial always has room: its area is at least 24 pixels high, its radius
/// at least 10, its centre inside the panel's width; and once the panel
/// leaves at least 40 pixels each way for the dial, the whole circle stays
/// 10 pixels clear of the dial area's edges.
pub proof fn lemma_dial_fits(size: ClientSize)
    ensures
        ({
            let d = dial_layout_spec(size);
            &&& d.dial_height >= 24
            &&& d.radius >= 10
            &&& 0 <= d.center_x < d.width
            &&& 0 <= d.center_y < d.dial_height
            &&& min_int(d.width as int, d.dial_height as int) >= 40 ==> {
                &&& d.center_x - d.radius >= 10
                &&& d.center_x + d.radius + 10 <= d.width
                &&& d.center_y - d.radius >= 10
                &&& d.center_y + d.radius + 10 <= d.dial_height
            }
        }),
{
}

/// The tick that marks hour `k` (twelve counting as zero).
pub open spec fn hour_mark(k: int) -> int {
    5 * k
}

/// The hour marks are the long, thick ticks: tick `i` is one exactly when it
/// points at an hour `k` of the twelve (`i == 5 * k`).
pub proof fn lemma_hour_marks(i: int)
    requires
        0 <= i < 60,
    ensures
        tick_spec(i).major <==> exists|k: int| 0 <= k < 12 && i == #[trigger] hour_mark(k),
        tick_spec(i).major ==> tick_spec(i).inner_permille < tick_spec(i + 1).inner_permille,
        tick_spec(i).major ==> tick_spec(i).pen_width > tick_spec(i + 1).pen_width,
        tick_spec(i).outer_permille == 970,
{
    if tick_spec(i).major {
        assert(i == hour_mark(i / 5));
    }
}

/// The hour hand moves with the minute hand: it is always a whole number of
/// hours (twelfths of its turn) away from where the minute hand's fraction
/// of an hour puts it.
pub proof fn lemma_hands_agree(t: ClockTime)
    ensures
        (hour_hand(t).position - minute_hand(t).position) % 3600 == 0,
        hour_hand(t).units_per_turn == 12 * minute_hand(t).units_per_turn,
        minute_hand(t).units_per_turn == 60 * second_hand(t).units_per_turn,
{
    let q = rem_toward_zero(t.hour as int, 12);
    assert(hour_hand(t).position - minute_hand(t).position == q * 3600);
}

/// For a real time of day each hand points within its single turn, and at
/// noon and midnight all of them point at twelve.
pub proof fn lemma_hands_within_turn(t: ClockTime)
    requires
        t.is_time_of_day(),
    ensures
        0 <= hour_hand(t).position < hour_hand(t).units_per_turn,
        0 <= minute_hand(t).position < minute_hand(t).units_per_turn,
        0 <= second_hand(t).position < second_hand(t).units_per_turn,
        (t.hour == 0 || t.hour == 12) && t.minute == 0 && t.second == 0 ==> {
            &&& hour_hand(t).position == 0
            &&& minute_hand(t).position == 0
            &&& second_hand(t).position == 0
        },
{
    let h = t.hour as int;
    assert(0 <= rem_toward_zero(h, 12) < 12);
}

/// The hands show the time read off the clock's fields, each clockwise from
/// twelve: the second hand stands at the second in sixtieths of a turn, the
/// minute hand at the minute and second in 3600ths, the hour hand at the hour
/// of the twelve (the hour's remainder by 12), minute and second in 43200ths.
/// Hour, minute and second hands come in that order, the second hand only
/// when seconds are shown.
pub proof fn lemma_hands_show_the_time(t: ClockTime, show_seconds: bool)
    ensures
        hands_spec(t, show_seconds).len() == if show_seconds { 3int } else { 2int },
        hands_spec(t, show_seconds)[0].kind == HandKind::Hour,
        hands_spec(t, show_seconds)[1].kind == HandKind::Minute,
        hands_spec(t, show_seconds)[0].units_per_turn == 43200,
        hands_spec(t, show_seconds)[1].units_per_turn == 3600,
        hands_spec(t, show_seconds)[1].position == t.minute * 60 + t.second,
        0 <= t.hour ==> hands_spec(t, show_seconds)[0].position
            == (t.hour % 12) * 3600 + t.minute * 60 + t.second,
        t.hour < 0 ==> hands_spec(t, show_seconds)[0].position
            == -((-t.hour) % 12) * 3600 + t.minute * 60 + t.second,
        show_seconds ==> {
            &&& hands_spec(t, show_seconds)[2].kind == HandKind::Second
            &&& hands_spec(t, show_seconds)[2].position == t.second
            &&& hands_spec(t, show_seconds)[2].units_per_turn == 60
        },
{
}

/// One second later (within the minute) the second hand has moved one
/// sixtieth of a turn clockwise, the minute hand one 3600th, the hour hand
/// one 43200th.
pub proof fn lemma_hands_advance_with_the_second(t: ClockTime, u: ClockTime)
    requires
        u == (ClockTime { second: (t.second + 1) as i16, ..t }),
        t.second < 59,
    ensures
        hands_spec(u, true)[2].position == hands_spec(t, true)[2].position + 1,
        hands_spec(u, true)[1].position == hands_spec(t, true)[1].position + 1,
        hands_spec(u, true)[0].position == hands_spec(t, true)[0].position + 1,
{
}

/// The hands get shorter from second to minute to hour, all stay inside the
/// ring of tick marks, and the hour hand is the thickest.
pub proof fn lemma_hand_proportions(t: ClockTime)
    ensures
        hands_spec(t, true)[0].length_permille < hands_spec(t, true)[1].length_permille,
        hands_spec(t, true)[1].length_permille < hands_spec(t, true)[2].length_permille,
        hands_spec(t, true)[2].length_permille <= tick_spec(0).inner_permille,
        hands_spec(t, true)[0].pen_width > hands_spec(t, true)[1].pen_width,
        hands_spec(t, true)[1].pen_width > hands_spec(t, true)[2].pen_width,
{
}

/// The dial's area is the panel less a 34-pixel footer, but never under 24
/// pixels high; the dial is centred in it (to within a pixel); and its radius
/// is the largest that keeps 10 pixels clear of the area's nearer edges, or
/// 10 where no such circle would be that big. The footer line starts 12
/// pixels in and 24 pixels above the bottom.
pub proof fn lemma_dial_is_largest_with_margin(size: ClientSize)
    ensures
        ({
            let d = dial_layout_spec(size);
            let w = if size.width >= 1 { size.width as int } else { 1 };
            let h = if size.height >= 1 { size.height as int } else { 1 };
            &&& d.width == w
            &&& d.height == h
            &&& d.dial_height >= 24
            &&& d.dial_height >= h - 34
            &&& (d.dial_height == 24 || d.dial_height == h - 34)
            &&& 0 <= d.width - 2 * d.center_x <= 1
            &&& 0 <= d.dial_height - 2 * d.center_y <= 1
            &&& d.radius >= 10
            &&& d.radius > 10 ==> {
                &&& d.center_x - d.radius >= 10
                &&& d.center_x + d.radius + 10 <= d.width
                &&& d.center_y - d.radius >= 10
                &&& d.center_y + d.radius + 10 <= d.dial_height
            }
            &&& d.radius > 10 ==> {
                ||| d.center_x - (d.radius + 1) < 10
                ||| d.center_x + (d.radius + 1) + 10 > d.width
                ||| d.center_y - (d.radius + 1) < 10
                ||| d.center_y + (d.radius + 1) + 10 > d.dial_height
            }
            &&& d.radius == 10 ==> (if d.width <= d.dial_height { d.width } else { d.dial_height }) < 42
            &&& d.footer_x == 12
            &&& d.footer_y == h - 24
        }),
{
}

} // verus!
