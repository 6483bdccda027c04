//! Decimal digit arithmetic and rendering: powers of ten, the digit string of
//! an integer, and the fixed-scale textual form of a scaled decimal value.
use vstd::prelude::*;

verus! {

/// 10^n as a mathematical integer.
pub open spec fn pow10(n: nat) -> int
    decreases n,
{
    if n == 0 {
        1
    } else {
        10 * pow10((n - 1) as nat)
    }
}

/// A raw value fits a precision when its magnitude is at most 10^p - 1.
pub open spec fn fits_precision(v: int, p: nat) -> bool {
    -(pow10(p) - 1) <= v <= pow10(p) - 1
}

pub proof fn lemma_pow10_pos(n: nat)
    ensures
        pow10(n) >= 1,
    decreases n,
{
    if n > 0 {
        lemma_pow10_pos((n - 1) as nat);
    }
}

pub proof fn lemma_pow10_increases(a: nat, b: nat)
    requires
        a <= b,
    ensures
        pow10(a) <= pow10(b),
    decreases b,
{
    if a < b {
        lemma_pow10_increases(a, (b - 1) as nat);
        lemma_pow10_pos((b - 1) as nat);
    }
}

pub proof fn lemma_pow10_38()
    ensures
        pow10(38) == 100000000000000000000000000000000000000int,
{
    reveal_with_fuel(pow10, 40);
}

/// 10^p as an `i128`, for any precision up to 38 digits.
pub fn pow10_i128(p: usize) -> (r: i128)
    requires
        p <= 38,
    ensures
        r == pow10(p as nat),
{
    let mut acc: i128 = 1;
    let mut i: usize = 0;
    while i < p
        invariant
            i <= p,
            p <= 38,
            acc == pow10(i as nat),
        decreases p - i,
    {
        proof {
            lemma_pow10_pos(i as nat);
            lemma_pow10_increases((i + 1) as nat, 38);
            lemma_pow10_38();
        }
        acc = acc * 10;
        i = i + 1;
    }
    acc
}

/// The character for one decimal digit.
pub open spec fn spec_digit_char(d: int) -> char {
    if d == 0 {
        '0'
    } else if d == 1 {
        '1'
    } else if d == 2 {
        '2'
    } else if d == 3 {
        '3'
    } else if d == 4 {
        '4'
    } else if d == 5 {
        '5'
    } else if d == 6 {
        '6'
    } else if d == 7 {
        '7'
    } else if d == 8 {
        '8'
    } else {
        '9'
    }
}

/// The decimal digit string of a non-negative integer, most significant digit
/// first, with no leading zeros (`0` itself is the single character `'0'`).
pub open spec fn spec_dec_digits(n: nat) -> Seq<char>
    decreases n,
{
    if n < 10 {
        seq![spec_digit_char(n as int)]
    } else {
        spec_dec_digits(n / 10).push(spec_digit_char((n % 10) as int))
    }
}

/// The decimal string of a signed integer: a leading `-` iff it is negative.
pub open spec fn spec_int_string(v: int) -> Seq<char> {
    if v < 0 {
        seq!['-'] + spec_dec_digits((-v) as nat)
    } else {
        spec_dec_digits(v as nat)
    }
}

/// A run of `n` zero characters.
pub open spec fn spec_zeros(n: nat) -> Seq<char> {
    Seq::new(n, |i: int| '0')
}

/// The textual form of the scaled decimal `v * 10^-scale`: the digit string of
/// `|v|`, zero-padded on the left until it has more than `scale` digits, with a
/// point placed `scale` digits from the right (no point when `scale` is 0) and
/// a leading `-` iff `v` is negative.
pub open spec fn spec_decimal_string(v: int, scale: nat) -> Seq<char> {
    let sign: Seq<char> = if v < 0 {
        seq!['-']
    } else {
        Seq::empty()
    };
    let digs = spec_dec_digits(vstd::math::abs(v));
    if scale == 0 {
        sign + digs
    } else {
        let padded = if digs.len() > scale {
            digs
        } else {
            spec_zeros((scale + 1 - digs.len()) as nat) + digs
        };
        sign + padded.subrange(0, padded.len() - scale) + seq!['.'] + padded.subrange(
            padded.len() - scale,
            padded.len() as int,
        )
    }
}

/// Relies on std's String::push: appends exactly the one character at the end.
#[verifier::external_body]
pub(crate) fn push_char(s: &mut String, c: char)
    ensures
        final(s)@ == old(s)@.push(c),
{
    s.push(c);
}

fn digit_char(d: u128) -> (c: char)
    requires
        d < 10,
    ensures
        c == spec_digit_char(d as int),
{
    if d == 0 {
        '0'
    } else if d == 1 {
        '1'
    } else if d == 2 {
        '2'
    } else if d == 3 {
        '3'
    } else if d == 4 {
        '4'
    } else if d == 5 {
        '5'
    } else if d == 6 {
        '6'
    } else if d == 7 {
        '7'
    } else if d == 8 {
        '8'
    } else {
        '9'
    }
}

/// Appends the decimal digits of `n` to `out`.
fn push_dec_digits(n: u128, out: &mut Vec<char>)
    ensures
        final(out)@ == old(out)@ + spec_dec_digits(n as nat),
    decreases n,
{
    if n < 10 {
        let c = digit_char(n);
        out.push(c);
        assert(out@ =~= old(out)@ + spec_dec_digits(n as nat));
    } else {
        assert(n / 10 < n && n / 10 >= 1) by (nonlinear_arith)
            requires
                n >= 10,
        ;
        push_dec_digits(n / 10, out);
        let c = digit_char(n % 10);
        out.push(c);
        assert(out@ =~= old(out)@ + spec_dec_digits(n as nat));
    }
}

/// The magnitude of a signed 128-bit value, as an unsigned one.
pub fn abs_u128(v: i128) -> (m: u128)
    ensures
        m == vstd::math::abs(v as int),
{
    if v >= 0 {
        v as u128
    } else {
        let d = -(v + 1);
        (d as u128) + 1
    }
}

/// Appends the decimal digits of a `usize` to a string.
pub(crate) fn push_usize_string(s: &mut String, n: usize)
    ensures
        final(s)@ == old(s)@ + spec_dec_digits(n as nat),
{
    let mut digs: Vec<char> = Vec::new();
    push_dec_digits(n as u128, &mut digs);
    push_chars(s, &digs, 0, digs.len());
    assert(s@ =~= old(s)@ + spec_dec_digits(n as nat));
}

/// Appends the decimal string of a signed 128-bit value to a string.
pub(crate) fn push_i128_string(s: &mut String, v: i128)
    ensures
        final(s)@ == old(s)@ + spec_int_string(v as int),
{
    if v < 0 {
        push_char(s, '-');
    }
    let m = abs_u128(v);
    let mut digs: Vec<char> = Vec::new();
    push_dec_digits(m, &mut digs);
    push_chars(s, &digs, 0, digs.len());
    assert(s@ =~= old(s)@ + spec_int_string(v as int));
}

/// Appends `digs[start..end]` to `s`.
fn push_chars(s: &mut String, digs: &Vec<char>, start: usize, end: usize)
    requires
        start <= end <= digs@.len(),
    ensures
        final(s)@ == old(s)@ + digs@.subrange(start as int, end as int),
{
    let mut i = start;
    while i < end
        invariant
            start <= i <= end <= digs@.len(),
            s@ == old(s)@ + digs@.subrange(start as int, i as int),
        decreases end - i,
    {
        push_char(s, digs[i]);
        assert(s@ =~= old(s)@ + digs@.subrange(start as int, (i + 1) as int));
        i = i + 1;
    }
    assert(s@ =~= old(s)@ + digs@.subrange(start as int, end as int));
}

/// Renders `v * 10^-scale`: exactly `scale` digits after the point, none when
/// `scale` is 0, zero-padded, with a leading `-` iff `v` is negative.
pub fn render_decimal(v: i128, scale: usize) -> (s: String)
    ensures
        s@ == spec_decimal_string(v as int, scale as nat),
{
    let m = abs_u128(v);
    let mut digs: Vec<char> = Vec::new();
    push_dec_digits(m, &mut digs);
    let mut s = String::new();
    if v < 0 {
        push_char(&mut s, '-');
    }
    let ghost sign: Seq<char> = if v < 0 {
        seq!['-']
    } else {
        Seq::empty()
    };
    assert(s@ =~= sign);
    if scale == 0 {
        push_chars(&mut s, &digs, 0, digs.len());
        assert(s@ =~= spec_decimal_string(v as int, scale as nat));
        s
    } else {
        let ghost padded: Seq<char> = if digs@.len() > scale {
            digs@
        } else {
            spec_zeros((scale + 1 - digs@.len()) as nat) + digs@
        };
        if digs.len() > scale {
            push_chars(&mut s, &digs, 0, digs.len() - scale);
            assert(s@ =~= sign + padded.subrange(0, padded.len() - scale));
        } else {
            push_char(&mut s, '0');
            assert(s@ =~= sign + padded.subrange(0, padded.len() - scale));
        }
        push_char(&mut s, '.');
        let mut pad = if digs.len() > scale {
            0
        } else {
            scale - digs.len()
        };
        while pad > 0
            invariant
                s@ == sign + padded.subrange(0, padded.len() - scale) + seq!['.'] + padded.subrange(
                    padded.len() - scale,
                    padded.len() - scale + (if digs@.len() > scale {
                        0int
                    } else {
                        (scale - digs@.len()) as int
                    } - pad),
                ),
                digs@.len() <= scale ==> pad <= scale - digs@.len(),
                digs@.len() > scale ==> pad == 0,
                scale > 0,
                padded == (if digs@.len() > scale {
                    digs@
                } else {
                    spec_zeros((scale + 1 - digs@.len()) as nat) + digs@
                }),
            decreases pad,
        {
            push_char(&mut s, '0');
            pad = pad - 1;
            assert(s@ =~= sign + padded.subrange(0, padded.len() - scale) + seq!['.']
                + padded.subrange(
                padded.len() - scale,
                padded.len() - scale + ((scale - digs@.len()) as int - pad),
            ));
        }
        let start = if digs.len() > scale {
            digs.len() - scale
        } else {
            0
        };
        push_chars(&mut s, &digs, start, digs.len());
        assert(s@ =~= sign + padded.subrange(0, padded.len() - scale) + seq!['.']
            + padded.subrange(padded.len() - scale, padded.len() as int));
        s
    }
}

} // verus!
