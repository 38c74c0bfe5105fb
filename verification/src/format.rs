//! Zero-padded decimal formatting of integers, as the `{:0N}` format
//! directive renders them.

use vstd::prelude::*;

verus! {

/// The character for a decimal digit.
pub open spec fn digit_char(d: nat) -> char {
    if d == 0 { '0' } else if d == 1 { '1' } else if d == 2 { '2' } else if d == 3 { '3' }
    else if d == 4 { '4' } else if d == 5 { '5' } else if d == 6 { '6' } else if d == 7 { '7' }
    else if d == 8 { '8' } else { '9' }
}

/// The decimal digits of `n`, most significant first, without leading zeros
/// (a single `0` for zero).
pub open spec fn decimal(n: nat) -> Seq<char>
    decreases n,
{
    if n < 10 {
        seq![digit_char(n)]
    } else {
        decimal(n / 10).push(digit_char(n % 10))
    }
}

/// `s` preceded by as many `0`s as it takes to reach `width` characters.
pub open spec fn zero_padded(s: Seq<char>, width: nat) -> Seq<char> {
    if s.len() >= width {
        s
    } else {
        Seq::new((width - s.len()) as nat, |i: int| '0') + s
    }
}

/// `n` in decimal, zero-padded to `width` characters, the sign (if any)
/// counting towards the width and standing before the zeros.
pub open spec fn padded_int(n: int, width: nat) -> Seq<char> {
    if n < 0 {
        seq!['-'] + zero_padded(decimal((-n) as nat), if width >= 1 { (width - 1) as nat } else { 0 })
    } else {
        zero_padded(decimal(n as nat), width)
    }
}

fn digit_str(d: u64) -> (r: &'static str)
    requires
        d < 10,
    ensures
        r@ == seq![digit_char(d as nat)],
{
    proof {
        reveal_strlit("0");
        reveal_strlit("1");
        reveal_strlit("2");
        reveal_strlit("3");
        reveal_strlit("4");
        reveal_strlit("5");
        reveal_strlit("6");
        reveal_strlit("7");
        reveal_strlit("8");
        reveal_strlit("9");
    }
    match d {
        0 => "0",
        1 => "1",
        2 => "2",
        3 => "3",
        4 => "4",
        5 => "5",
        6 => "6",
        7 => "7",
        8 => "8",
        _ => "9",
    }
}


/// The number of decimal digits of `n`.
fn decimal_len(n: u64) -> (r: u64)
    ensures
        r == decimal(n as nat).len(),
        1 <= r <= 1 + n / 10,
    decreases n,
{
    if n < 10 {
        1
    } else {
        let k = decimal_len(n / 10);
        k + 1
    }
}

/// Appends the decimal digits of `n` to `out`.
fn push_decimal(out: &mut String, n: u64)
    ensures
        final(out)@ == old(out)@ + decimal(n as nat),
    decreases n,
{
    if n >= 10 {
        push_decimal(out, n / 10);
    }
    let d = digit_str(n % 10);
    out.append(d);
    proof {
        if n >= 10 {
            assert(decimal(n as nat) == decimal((n / 10) as nat).push(digit_char((n % 10) as nat)));
        }
    }
}

/// Appends `count` zeros to `out`.
fn push_zeros(out: &mut String, count: usize)
    ensures
        final(out)@ == old(out)@ + Seq::new(count as nat, |i: int| '0'),
{
    let ghost start = out@;
    let mut k: usize = 0;
    proof {
        reveal_strlit("0");
        assert(start + Seq::new(0, |i: int| '0') =~= start);
    }
    while k < count
        invariant
            k <= count,
            out@ == start + Seq::new(k as nat, |i: int| '0'),
        decreases count - k,
    {
        proof {
            reveal_strlit("0");
        }
        out.append("0");
        k = k + 1;
        assert(out@ =~= start + Seq::new(k as nat, |i: int| '0'));
    }
}

/// Appends `n` to `out` as `padded_int` renders it: the sign first, then
/// zeros up to `width` characters in all, then the digits.
pub fn push_padded(out: &mut String, n: i64, width: usize)
    ensures
        final(out)@ == old(out)@ + padded_int(n as int, width as nat),
{
    let ghost start = out@;
    let magnitude: u64 = if n < 0 {
        proof {
            reveal_strlit("-");
        }
        out.append("-");
        let wide: i128 = n as i128;
        (-wide) as u64
    } else {
        n as u64
    };
    let target: usize = if n < 0 {
        if width >= 1 { width - 1 } else { 0 }
    } else {
        width
    };
    let len = decimal_len(magnitude);
    let ghost before_pad = out@;
    if len < target as u64 {
        push_zeros(out, target - (len as usize));
    }
    push_decimal(out, magnitude);
    proof {
        let digits = decimal(magnitude as nat);
        assert(out@ =~= before_pad + zero_padded(digits, target as nat));
        if n < 0 {
            assert(padded_int(n as int, width as nat) == seq!['-'] + zero_padded(digits, target as nat));
            assert(out@ =~= start + padded_int(n as int, width as nat));
        } else {
            assert(out@ =~= start + padded_int(n as int, width as nat));
        }
    }
}


/// Ten to the power `k`.
pub open spec fn pow10(k: nat) -> nat
    decreases k,
{
    if k == 0 { 1 } else { 10 * pow10((k - 1) as nat) }
}

/// The value of a digit character (0 for any other character).
pub open spec fn digit_value(c: char) -> nat {
    if c == '1' { 1 } else if c == '2' { 2 } else if c == '3' { 3 } else if c == '4' { 4 }
    else if c == '5' { 5 } else if c == '6' { 6 } else if c == '7' { 7 } else if c == '8' { 8 }
    else if c == '9' { 9 } else { 0 }
}

/// The number a string of decimal digits denotes.
pub open spec fn decimal_value(s: Seq<char>) -> nat
    decreases s.len(),
{
    if s.len() == 0 { 0 } else { decimal_value(s.drop_last()) * 10 + digit_value(s.last()) }
}

/// Whether every character of `s` is a decimal digit.
pub open spec fn all_digits(s: Seq<char>) -> bool {
    forall|i: int| 0 <= i < s.len() ==> '0' <= #[trigger] s[i] <= '9'
}

proof fn lemma_decimal_shape(n: nat)
    ensures
        decimal_value(decimal(n)) == n,
        all_digits(decimal(n)),
        decimal(n).len() >= 1,
        forall|k: nat| n < pow10(k) && k >= 1 ==> decimal(n).len() <= k,
    decreases n,
{
    assert(digit_value(digit_char(n % 10)) == n % 10);
    assert(n == (n / 10) * 10 + n % 10) by (nonlinear_arith);
    if n >= 10 {
        lemma_decimal_shape(n / 10);
        let d = decimal(n);
        assert(d.drop_last() =~= decimal(n / 10));
        assert(decimal_value(d) == decimal_value(decimal(n / 10)) * 10 + n % 10);
        assert forall|k: nat| n < pow10(k) && k >= 1 implies decimal(n).len() <= k by {
            if k == 1 {
                assert(pow10(1) == 10) by {
                    reveal_with_fuel(pow10, 2);
                }
            } else {
                assert(pow10(k) == 10 * pow10((k - 1) as nat));
                assert(n / 10 < pow10((k - 1) as nat));
            }
        }
    } else {
        assert(decimal(n).drop_last() =~= Seq::<char>::empty());
        assert(decimal_value(Seq::<char>::empty()) == 0);
        assert(n % 10 == n);
        assert forall|k: nat| n < pow10(k) && k >= 1 implies decimal(n).len() <= k by {}
    }
}

proof fn lemma_value_of_zeros_then(z: nat, s: Seq<char>)
    ensures
        decimal_value(Seq::new(z, |i: int| '0') + s) == decimal_value(s),
    decreases s.len(),
{
    let zs = Seq::new(z, |i: int| '0');
    if s.len() == 0 {
        assert(zs + s =~= zs);
        lemma_value_of_zeros(z);
    } else {
        lemma_value_of_zeros_then(z, s.drop_last());
        assert((zs + s).drop_last() =~= zs + s.drop_last());
    }
}

proof fn lemma_value_of_zeros(z: nat)
    ensures
        decimal_value(Seq::new(z, |i: int| '0')) == 0,
    decreases z,
{
    if z > 0 {
        lemma_value_of_zeros((z - 1) as nat);
        assert(Seq::new(z, |i: int| '0').drop_last() =~= Seq::new((z - 1) as nat, |i: int| '0'));
    }
}

/// A number that has at most `width` digits is written in exactly `width`
/// characters, all of them digits, and they read back as the number: the
/// padding zeros change nothing.
pub proof fn lemma_padded_reads_back(n: int, width: nat)
    requires
        0 <= n < pow10(width),
        width >= 1,
    ensures
        padded_int(n, width).len() == width,
        all_digits(padded_int(n, width)),
        decimal_value(padded_int(n, width)) == n,
{
    let d = decimal(n as nat);
    lemma_decimal_shape(n as nat);
    let z = (width - d.len()) as nat;
    let zs = Seq::new(z, |i: int| '0');
    assert(padded_int(n, width) =~= zs + d);
    lemma_value_of_zeros_then(z, d);
    assert forall|i: int| 0 <= i < (zs + d).len() implies '0' <= #[trigger] (zs + d)[i] <= '9' by {
        if i >= z {
            assert((zs + d)[i] == d[i - z]);
        }
    }
}

/// A negative number is written as a minus sign followed by the padded
/// digits of its magnitude.
pub proof fn lemma_negative_padded(n: int, width: nat)
    requires
        n < 0,
        width >= 1,
    ensures
        padded_int(n, width)[0] == '-',
        padded_int(n, width).drop_first() == zero_padded(decimal((-n) as nat), (width - 1) as nat),
{
    assert(padded_int(n, width).drop_first() =~= zero_padded(decimal((-n) as nat), (width - 1) as nat));
}

} // verus!
