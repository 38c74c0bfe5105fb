//! The digital face: its texts, the fonts they are set in, and where they go.

use vstd::prelude::*;
use crate::geometry::{at_least_one, div_toward_zero, half_toward_zero, max_int, min_int, ClientSize, FontFamily, FontSpec, Rect};
use crate::state::ClockState;
use crate::time::{date_text, time_text, date_text_spec, time_text_spec, ClockTime};
use crate::traits::Clock;

verus! {

/// The width of the clock's window when it opens; the digital face scales
/// its fonts by the panel's size relative to it.
pub const FRAME_WIDTH: i32 = 260;
/// The height of the clock's window when it opens.
pub const FRAME_HEIGHT: i32 = 300;

/// The size of a piece of text as the drawing context measures it.
#[derive(Clone, Copy, Debug, PartialEq, Eq)]
pub struct TextExtent {
    pub width: i32,
    pub height: i32,
}

/// Where the two lines of a digital face are drawn (their top-left corners).
#[derive(Clone, Copy, Debug, PartialEq, Eq)]
pub struct TextPlacement {
    pub time_x: i32,
    pub time_y: i32,
    pub date_x: i32,
    pub date_y: i32,
}

/// The framed digital face: a frame 12 pixels inside the panel, the time
/// centred horizontally and 22 pixels above the vertical centre, the date
/// centred 12 pixels under the time.
#[derive(Clone, Copy, Debug, PartialEq, Eq)]
pub struct FramedLayout {
    pub frame: Rect,
    pub text: TextPlacement,
}

/// The font of the framed face's time line.
pub fn framed_time_font() -> (f: FontSpec)
    ensures
        f == (FontSpec { point_size: 28, family: FontFamily::Modern, bold: true }),
{
    FontSpec { point_size: 28, family: FontFamily::Modern, bold: true }
}

/// The font of the framed face's date line.
pub fn framed_date_font() -> (f: FontSpec)
    ensures
        f == (FontSpec { point_size: 11, family: FontFamily::Swiss, bold: false }),
{
    FontSpec { point_size: 11, family: FontFamily::Swiss, bold: false }
}

/// The framed layout, over the integers.
pub open spec fn framed_layout_spec(size: ClientSize, time: TextExtent, date_width: int) -> FramedLayout {
    let w = at_least_one(size.width as int);
    let h = at_least_one(size.height as int);
    let ty = div_toward_zero(h - time.height, 2) - 22;
    FramedLayout {
        frame: Rect { x: 12, y: 12, width: (w - 24) as i32, height: (h - 24) as i32 },
        text: TextPlacement {
            time_x: div_toward_zero(w - time.width, 2) as i32,
            time_y: ty as i32,
            date_x: div_toward_zero(w - date_width, 2) as i32,
            date_y: (ty + time.height + 12) as i32,
        },
    }
}

/// The measured sizes for which the framed layout stays within machine
/// integers.
pub open spec fn framed_layout_fits(size: ClientSize, time: TextExtent, date_width: int) -> bool {
    let w = at_least_one(size.width as int);
    let h = at_least_one(size.height as int);
    let ty = div_toward_zero(h - time.height, 2) - 22;
    &&& i32::MIN <= w - time.width <= i32::MAX
    &&& i32::MIN <= h - time.height <= i32::MAX
    &&& i32::MIN <= w - date_width <= i32::MAX
    &&& i32::MIN <= ty + time.height <= i32::MAX
    &&& i32::MIN <= ty + time.height + 12 <= i32::MAX
}

fn fits_i32(v: i64) -> (b: bool)
    ensures
        b == (i32::MIN <= v <= i32::MAX),
{
    i32::MIN as i64 <= v && v <= i32::MAX as i64
}

/// Tells whether `framed_layout` can place these texts in this panel
/// without leaving machine integers.
pub fn framed_layout_in_range(size: ClientSize, time: TextExtent, date_width: i32) -> (b: bool)
    ensures
        b == framed_layout_fits(size, time, date_width as int),
{
    let w: i64 = if size.width >= 1 { size.width as i64 } else { 1 };
    let h: i64 = if size.height >= 1 { size.height as i64 } else { 1 };
    let ty: i64 = half_toward_zero(h - time.height as i64) - 22;
    fits_i32(w - time.width as i64) && fits_i32(h - time.height as i64) && fits_i32(
        w - date_width as i64,
    ) && fits_i32(ty + time.height as i64) && fits_i32(ty + time.height as i64 + 12)
}

/// Places the frame and the two lines of the framed digital face, given the
/// measured size of the time line and the width of the date line.
pub fn framed_layout(size: ClientSize, time: TextExtent, date_width: i32) -> (l: FramedLayout)
    requires
        framed_layout_fits(size, time, date_width as int),
    ensures
        l == framed_layout_spec(size, time, date_width as int),
{
    let w: i64 = if size.width >= 1 { size.width as i64 } else { 1 };
    let h: i64 = if size.height >= 1 { size.height as i64 } else { 1 };
    let ty: i64 = half_toward_zero(h - time.height as i64) - 22;
    FramedLayout {
        frame: Rect { x: 12, y: 12, width: (w - 24) as i32, height: (h - 24) as i32 },
        text: TextPlacement {
            time_x: half_toward_zero(w - time.width as i64) as i32,
            time_y: ty as i32,
            date_x: half_toward_zero(w - date_width as i64) as i32,
            date_y: (ty + time.height as i64 + 12) as i32,
        },
    }
}

/// The nearest integer to `p / q`, for `p` at least 0 and `q` positive,
/// halves rounded up.
pub open spec fn nearest(p: int, q: int) -> int {
    (2 * p + q) / (2 * q)
}

/// The time font's size for a panel: 32 points scaled by the smaller of the
/// panel's width and height ratios to the opening window, to the nearest
/// point, and at least 12. (32 × w / 260 and 32 × h / 300 are never exactly
/// halfway between two integers, so there is no tie to resolve.)
pub open spec fn time_font_points_spec(width: int, height: int) -> int {
    max_int(12, min_int(nearest(32 * width, 260), nearest(32 * height, 300)))
}

/// The space between the two lines of the stacked face: 4% of the panel's
/// height to the nearest pixel, and at least 6. (A twenty-fifth of an
/// integer is never exactly halfway between two integers.)
pub open spec fn gap_spec(height: int) -> int {
    max_int(6, nearest(height, 25))
}

/// The time font's size for a panel at least one pixel wide and high.
pub fn time_font_points(width: i32, height: i32) -> (pt: i32)
    requires
        width >= 1,
        height >= 1,
    ensures
        pt == time_font_points_spec(width as int, height as int),
{
    let by_width: i64 = (64 * (width as i64) + 260) / 520;
    let by_height: i64 = (64 * (height as i64) + 300) / 600;
    let m = if by_width <= by_height { by_width } else { by_height };
    proof {
        assert(by_width <= (64 * 2147483647 + 260) / 520) by (nonlinear_arith)
            requires
                by_width == (64 * (width as i64) + 260) / 520,
                width <= 2147483647,
        ;
    }
    if m >= 12 { m as i32 } else { 12 }
}

/// The stacked digital face: the clock's settings, the panel size it was
/// made for, and the sizes of its two fonts.
#[derive(Clone, Copy, Debug, PartialEq, Eq)]
pub struct DigitalClock {
    pub state: ClockState,
    pub width: i32,
    pub height: i32,
    pub time_font_pt: i32,
    pub date_font_pt: i32,
}

/// The stacked layout, over the integers: the two lines, `gap` apart, form a
/// block centred in the panel; each line is centred horizontally.
pub open spec fn stacked_layout_spec(c: DigitalClock, time: TextExtent, date: TextExtent) -> TextPlacement {
    let gap = gap_spec(c.height as int);
    let top = div_toward_zero(c.height - (time.height + gap + date.height), 2);
    TextPlacement {
        time_x: div_toward_zero(c.width - time.width, 2) as i32,
        time_y: top as i32,
        date_x: div_toward_zero(c.width - date.width, 2) as i32,
        date_y: (top + time.height + gap) as i32,
    }
}

/// The measured sizes for which the stacked layout stays within machine
/// integers.
pub open spec fn stacked_layout_fits(c: DigitalClock, time: TextExtent, date: TextExtent) -> bool {
    let gap = gap_spec(c.height as int);
    let total = time.height + gap + date.height;
    let top = div_toward_zero(c.height - total, 2);
    &&& i32::MIN <= time.height + gap <= i32::MAX
    &&& i32::MIN <= total <= i32::MAX
    &&& i32::MIN <= c.height - total <= i32::MAX
    &&& i32::MIN <= c.width - time.width <= i32::MAX
    &&& i32::MIN <= c.width - date.width <= i32::MAX
    &&& i32::MIN <= top + time.height <= i32::MAX
    &&& i32::MIN <= top + time.height + gap <= i32::MAX
}

impl Clock for DigitalClock {
    /// A stacked digital face for a panel of the given size (a size under one
    /// pixel counting as one). Its time font is `time_font_points_spec` of
    /// that size; `date_font_pt` is the date font's size, which the caller
    /// scales from 26 points in floating point.
    fn new(size: ClientSize, state: ClockState, date_font_pt: i32) -> (c: DigitalClock)
        ensures
            c.state == state,
            c.width == at_least_one(size.width as int),
            c.height == at_least_one(size.height as int),
            c.time_font_pt == time_font_points_spec(c.width as int, c.height as int),
            c.date_font_pt == date_font_pt,
    {
        let width = if size.width >= 1 { size.width } else { 1 };
        let height = if size.height >= 1 { size.height } else { 1 };
        DigitalClock {
            state,
            width,
            height,
            time_font_pt: time_font_points(width, height),
            date_font_pt,
        }
    }
}

impl DigitalClock {
    /// The font of the time line.
    pub fn time_font(&self) -> (f: FontSpec)
        ensures
            f == (FontSpec { point_size: self.time_font_pt, family: FontFamily::Modern, bold: true }),
    {
        FontSpec { point_size: self.time_font_pt, family: FontFamily::Modern, bold: true }
    }

    /// The font of the date line.
    pub fn date_font(&self) -> (f: FontSpec)
        ensures
            f == (FontSpec { point_size: self.date_font_pt, family: FontFamily::Swiss, bold: false }),
    {
        FontSpec { point_size: self.date_font_pt, family: FontFamily::Swiss, bold: false }
    }

    /// The time line: seconds included when this face shows them.
    pub fn time_line(&self, t: &ClockTime) -> (s: String)
        ensures
            s@ == time_text_spec(*t, self.state.show_seconds),
    {
        time_text(t, self.state.show_seconds)
    }

    /// The date line, its fields joined by slashes.
    pub fn date_line(&self, t: &ClockTime) -> (s: String)
        ensures
            s@ == date_text_spec(*t, seq!['/']),
    {
        proof {
            reveal_strlit("/");
        }
        date_text(t, "/")
    }

    /// The space between the two lines.
    pub fn gap(&self) -> (g: i32)
        requires
            self.height >= 1,
        ensures
            g == gap_spec(self.height as int),
    {
        let n: i64 = (2 * (self.height as i64) + 25) / 50;
        if n >= 6 { n as i32 } else { 6 }
    }

    /// Tells whether `layout` can place lines of these sizes without
    /// leaving machine integers.
    pub fn layout_in_range(&self, time: TextExtent, date: TextExtent) -> (b: bool)
        requires
            self.height >= 1,
        ensures
            b == stacked_layout_fits(*self, time, date),
    {
        let gap = self.gap() as i64;
        let total: i64 = time.height as i64 + gap + date.height as i64;
        let top: i64 = half_toward_zero(self.height as i64 - total);
        fits_i32(time.height as i64 + gap) && fits_i32(total) && fits_i32(self.height as i64 - total)
            && fits_i32(self.width as i64 - time.width as i64) && fits_i32(
            self.width as i64 - date.width as i64,
        ) && fits_i32(top + time.height as i64) && fits_i32(top + time.height as i64 + gap)
    }

    /// Places the time and date lines, given their measured sizes.
    pub fn layout(&self, time: TextExtent, date: TextExtent) -> (p: TextPlacement)
        requires
            self.height >= 1,
            stacked_layout_fits(*self, time, date),
        ensures
            p == stacked_layout_spec(*self, time, date),
    {
        let gap = self.gap() as i64;
        let total: i64 = time.height as i64 + gap + date.height as i64;
        let top: i64 = half_toward_zero(self.height as i64 - total);
        TextPlacement {
            time_x: half_toward_zero(self.width as i64 - time.width as i64) as i32,
            time_y: top as i32,
            date_x: half_toward_zero(self.width as i64 - date.width as i64) as i32,
            date_y: (top + time.height as i64 + gap) as i32,
        }
    }
}


proof fn lemma_nearest_monotone(p1: int, p2: int, q: int)
    requires
        0 <= p1 <= p2,
        q > 0,
    ensures
        nearest(p1, q) <= nearest(p2, q),
{
    assert((2 * p1 + q) / (2 * q) <= (2 * p2 + q) / (2 * q)) by (nonlinear_arith)
        requires
            2 * p1 + q <= 2 * p2 + q,
            2 * q > 0,
    {
        vstd::arithmetic::div_mod::lemma_div_is_ordered(2 * p1 + q, 2 * p2 + q, 2 * q);
    }
}

/// The time font never shrinks as the panel grows, and is never under 12
/// points.
pub proof fn lemma_time_font_grows_with_panel(w1: int, h1: int, w2: int, h2: int)
    requires
        1 <= w1 <= w2,
        1 <= h1 <= h2,
    ensures
        time_font_points_spec(w1, h1) <= time_font_points_spec(w2, h2),
        time_font_points_spec(w1, h1) >= 12,
{
    lemma_nearest_monotone(32 * w1, 32 * w2, 260);
    lemma_nearest_monotone(32 * h1, 32 * h2, 300);
}

/// In the stacked face the date line starts under the time line, separated
/// from it by the gap, which is at least 6 pixels and grows with the panel.
pub proof fn lemma_stacked_lines_apart(c: DigitalClock, time: TextExtent, date: TextExtent, taller: int)
    requires
        c.height >= 1,
        taller >= c.height,
        stacked_layout_fits(c, time, date),
    ensures
        stacked_layout_spec(c, time, date).date_y == stacked_layout_spec(c, time, date).time_y
            + time.height + gap_spec(c.height as int),
        gap_spec(c.height as int) >= 6,
        gap_spec(c.height as int) <= gap_spec(taller),
{
    lemma_nearest_monotone(c.height as int, taller, 25);
}

/// Halving toward zero splits a non-negative room between two sides that
/// differ by at most one pixel.
proof fn lemma_half_splits(room: int)
    requires
        room >= 0,
    ensures
        0 <= room - 2 * div_toward_zero(room, 2) <= 1,
{
}

/// Each line is centred: where the panel is at least as wide as the line,
/// the space left of it and the space right of it differ by at most one
/// pixel, the extra pixel going to the right.
pub proof fn lemma_lines_centred(c: DigitalClock, size: ClientSize, time: TextExtent, date: TextExtent)
    ensures
        c.width >= time.width ==> {
            let x = stacked_layout_spec(c, time, date).time_x;
            0 <= (c.width - time.width - x) - x <= 1
        },
        c.width >= date.width ==> {
            let x = stacked_layout_spec(c, time, date).date_x;
            0 <= (c.width - date.width - x) - x <= 1
        },
        at_least_one(size.width as int) >= time.width && framed_layout_fits(size, time, date.width as int) ==> {
            let x = framed_layout_spec(size, time, date.width as int).text.time_x;
            0 <= (at_least_one(size.width as int) - time.width - x) - x <= 1
        },
        at_least_one(size.width as int) >= date.width && framed_layout_fits(size, time, date.width as int) ==> {
            let x = framed_layout_spec(size, time, date.width as int).text.date_x;
            0 <= (at_least_one(size.width as int) - date.width - x) - x <= 1
        },
{
    if c.width >= time.width {
        lemma_half_splits(c.width - time.width);
    }
    if c.width >= date.width {
        lemma_half_splits(c.width - date.width);
    }
    let w = at_least_one(size.width as int);
    if w >= time.width {
        lemma_half_splits(w - time.width);
    }
    if w >= date.width {
        lemma_half_splits(w - date.width);
    }
}

/// The time font is 32 points scaled by the smaller of the panel's ratios to
/// the opening window (260 by 300), to the nearest point, but at least 12:
/// it is within half a point of each ratio's scaled size or above it, within
/// half a point of the smaller one, and at 12 only where that scaled size is
/// under 12.5.
pub proof fn lemma_time_font_is_nearest_scaled_size(w: int, h: int)
    requires
        w >= 1,
        h >= 1,
    ensures
        ({
            let pt = time_font_points_spec(w, h);
            &&& pt >= 12
            &&& pt > 12 ==> {
                &&& 260 * (2 * pt - 1) <= 64 * w
                &&& 300 * (2 * pt - 1) <= 64 * h
                &&& (64 * w < 260 * (2 * pt + 1) || 64 * h < 300 * (2 * pt + 1))
            }
            &&& pt == 12 ==> (64 * w < 260 * 25 || 64 * h < 300 * 25)
        }),
{
    let a = nearest(32 * w, 260);
    let b = nearest(32 * h, 300);
    assert(520 * a <= 64 * w + 260 < 520 * a + 520) by (nonlinear_arith)
        requires
            a == (64 * w + 260) / 520,
            w >= 1,
    ;
    assert(600 * b <= 64 * h + 300 < 600 * b + 600) by (nonlinear_arith)
        requires
            b == (64 * h + 300) / 600,
            h >= 1,
    ;
}

/// The gap between the stacked lines is 4% of the panel's height to the
/// nearest pixel (within half a pixel of it), but at least 6.
pub proof fn lemma_gap_is_four_percent(h: int)
    requires
        h >= 1,
    ensures
        gap_spec(h) >= 6,
        gap_spec(h) > 6 ==> 50 * gap_spec(h) - 25 <= 2 * h < 50 * gap_spec(h) + 25,
        gap_spec(h) == 6 ==> 2 * h < 50 * 6 + 25,
{
    let g = nearest(h, 25);
    assert(50 * g <= 2 * h + 25 < 50 * g + 50) by (nonlinear_arith)
        requires
            g == (2 * h + 25) / 50,
            h >= 1,
    ;
}

/// The framed face: the frame lies 12 pixels inside each edge of the panel;
/// the time line is centred vertically 22 pixels above the middle (to within
/// a pixel, where it fits), and the date line starts 12 pixels under it.
pub proof fn lemma_framed_face_geometry(size: ClientSize, time: TextExtent, date_width: int)
    requires
        framed_layout_fits(size, time, date_width),
    ensures
        ({
            let l = framed_layout_spec(size, time, date_width);
            let w = if size.width >= 1 { size.width as int } else { 1 };
            let h = if size.height >= 1 { size.height as int } else { 1 };
            &&& l.frame.x == 12 && l.frame.y == 12
            &&& l.frame.x + l.frame.width == w - 12
            &&& l.frame.y + l.frame.height == h - 12
            &&& h >= time.height ==> 0 <= (h - time.height) - 2 * (l.text.time_y + 22) <= 1
            &&& l.text.date_y == l.text.time_y + time.height + 12
        }),
{
    let h = if size.height >= 1 { size.height as int } else { 1 };
    if h >= time.height {
        lemma_half_splits(h - time.height);
    }
}

/// The stacked face: the block of the two lines and the gap between them is
/// centred vertically in the panel (to within a pixel, where it fits).
pub proof fn lemma_stacked_block_centred(c: DigitalClock, time: TextExtent, date: TextExtent)
    requires
        c.height >= 1,
        stacked_layout_fits(c, time, date),
    ensures
        ({
            let p = stacked_layout_spec(c, time, date);
            let block = time.height + gap_spec(c.height as int) + date.height;
            c.height >= block ==> 0 <= (c.height - block - p.time_y) - p.time_y <= 1
        }),
{
    let block = time.height + gap_spec(c.height as int) + date.height;
    if c.height >= block {
        lemma_half_splits(c.height - block);
    }
}

} // verus!
