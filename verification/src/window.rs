//! The frame's window style: switching the title bar and the always-on-top
//! behaviour on and off by their style bits.

use vstd::prelude::*;

verus! {

/// The style bits that make up a frame's title bar: caption, system menu,
/// and the minimize, maximize and close boxes.
#[derive(Clone, Copy, Debug, PartialEq, Eq)]
pub struct TitleBarBits {
    pub caption: i64,
    pub system_menu: i64,
    pub minimize_box: i64,
    pub maximize_box: i64,
    pub close_box: i64,
}

/// All the title bar's bits together.
pub open spec fn title_mask(b: TitleBarBits) -> i64 {
    b.caption | b.system_menu | b.minimize_box | b.maximize_box | b.close_box
}

/// `style` with the bits of `bits` all set (`on`) or all cleared.
pub open spec fn with_bits(style: i64, bits: i64, on: bool) -> i64 {
    if on { style | bits } else { style & !bits }
}

/// `style` with `bits` set when `on` and cleared otherwise; the other bits
/// are kept.
pub fn style_with_bits(style: i64, bits: i64, on: bool) -> (s: i64)
    ensures
        s == with_bits(style, bits, on),
{
    if on {
        style | bits
    } else {
        style & !bits
    }
}

/// The frame style that shows the title bar (`visible`) or hides it.
pub fn title_bar_style(style: i64, bits: TitleBarBits, visible: bool) -> (s: i64)
    ensures
        s == with_bits(style, title_mask(bits), visible),
{
    let mask = bits.caption | bits.system_menu | bits.minimize_box | bits.maximize_box | bits.close_box;
    style_with_bits(style, mask, visible)
}

/// The frame style that keeps the window above others (`on`) or not.
pub fn stay_on_top_style(style: i64, stay_on_top_bit: i64, on: bool) -> (s: i64)
    ensures
        s == with_bits(style, stay_on_top_bit, on),
{
    style_with_bits(style, stay_on_top_bit, on)
}

/// Switching bits on or off leaves every other bit of the style as it was.
pub proof fn lemma_other_bits_kept(style: i64, bits: i64, on: bool)
    ensures
        with_bits(style, bits, on) & !bits == style & !bits,
{
    if on {
        assert((style | bits) & !bits == style & !bits) by (bit_vector);
    } else {
        assert((style & !bits) & !bits == style & !bits) by (bit_vector);
    }
}

/// Switching bits on sets all of them; switching them off clears all of them.
pub proof fn lemma_bits_switched(style: i64, bits: i64, on: bool)
    ensures
        on ==> with_bits(style, bits, on) & bits == bits,
        !on ==> with_bits(style, bits, on) & bits == 0,
{
    assert((style | bits) & bits == bits) by (bit_vector);
    assert((style & !bits) & bits == 0) by (bit_vector);
}

/// Hiding the title bar and showing it again gives the style with the whole
/// title bar on; showing and hiding again gives it with the title bar off:
/// the last switch alone decides.
pub proof fn lemma_last_switch_wins(style: i64, bits: i64, first: bool, second: bool)
    ensures
        with_bits(with_bits(style, bits, first), bits, second) == with_bits(style, bits, second),
{
    assert((style | bits) | bits == style | bits) by (bit_vector);
    assert((style & !bits) | bits == style | bits) by (bit_vector);
    assert((style | bits) & !bits == style & !bits) by (bit_vector);
    assert((style & !bits) & !bits == style & !bits) by (bit_vector);
}

/// A style whose bits were all on (or all off) already is left unchanged.
pub proof fn lemma_switch_is_idempotent(style: i64, bits: i64)
    ensures
        style & bits == bits ==> with_bits(style, bits, true) == style,
        style & bits == 0 ==> with_bits(style, bits, false) == style,
{
    assert(style & bits == bits ==> style | bits == style) by (bit_vector);
    assert(style & bits == 0 ==> style & !bits == style) by (bit_vector);
}

/// Showing the title bar sets each of its five bits (caption, system menu,
/// minimize, maximize and close boxes); hiding it clears each of them; a bit
/// that is none of the five stays as it was.
pub proof fn lemma_title_bar_bits_each(style: i64, b: TitleBarBits, visible: bool, other: i64)
    requires
        other & (b.caption | b.system_menu | b.minimize_box | b.maximize_box | b.close_box) == 0,
    ensures
        ({
            let s = with_bits(style, title_mask(b), visible);
            &&& visible ==> {
                &&& s & b.caption == b.caption
                &&& s & b.system_menu == b.system_menu
                &&& s & b.minimize_box == b.minimize_box
                &&& s & b.maximize_box == b.maximize_box
                &&& s & b.close_box == b.close_box
            }
            &&& !visible ==> {
                &&& s & b.caption == 0
                &&& s & b.system_menu == 0
                &&& s & b.minimize_box == 0
                &&& s & b.maximize_box == 0
                &&& s & b.close_box == 0
            }
            &&& s & other == style & other
        }),
{
    let c = b.caption;
    let sm = b.system_menu;
    let mn = b.minimize_box;
    let mx = b.maximize_box;
    let cl = b.close_box;
    let m = title_mask(b);
    assert(m == c | sm | mn | mx | cl);
    assert(m == c | sm | mn | mx | cl ==> (style | m) & c == c && (style | m) & sm == sm
        && (style | m) & mn == mn && (style | m) & mx == mx && (style | m) & cl == cl) by (bit_vector);
    assert(m == c | sm | mn | mx | cl ==> (style & !m) & c == 0 && (style & !m) & sm == 0
        && (style & !m) & mn == 0 && (style & !m) & mx == 0 && (style & !m) & cl == 0) by (bit_vector);
    assert(other & m == 0 ==> (style | m) & other == style & other && (style & !m) & other == style
        & other) by (bit_vector);
}

} // verus!
