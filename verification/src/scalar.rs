//! Fixed-point scalars.
//!
//! Physical quantities are carried as `i64` thousandths (milli-units).
//! This module clamps such scalars to a range and renders them with one
//! decimal digit, the way the stats panel shows them.

use vstd::prelude::*;

verus! {

/// A scalar triple (a position or a velocity), each component in thousandths.
#[derive(Clone, Copy, PartialEq, Eq, Structural, Debug)]
pub struct Vec3Milli {
    pub x: i64,
    pub y: i64,
    pub z: i64,
}

/// A scalar triple rendered to one decimal place, component by component.
pub struct FormattedVec3 {
    pub x: String,
    pub y: String,
    pub z: String,
}

/// A milli-unit scalar the formatter accepts: every value but `i64::MIN`,
/// whose magnitude does not fit in `i64`.
pub open spec fn scalar_ok(v: i64) -> bool {
    v != i64::MIN
}

/// `v` clamped to the inclusive range `[lo, hi]`.
pub open spec fn clamped(v: i64, lo: i64, hi: i64) -> i64 {
    if v < lo {
        lo
    } else if v > hi {
        hi
    } else {
        v
    }
}

/// Clamp `v` to the inclusive range `[lo, hi]`.
pub fn clamp_milli(v: i64, lo: i64, hi: i64) -> (r: i64)
    requires
        lo <= hi,
    ensures
        r == clamped(v, lo, hi),
{
    if v < lo {
        lo
    } else if v > hi {
        hi
    } else {
        v
    }
}

/// The decimal digit character for `d` (0 through 9).
pub open spec fn digit_char(d: int) -> char {
    if d == 0 {
        '0'
    } else if d == 1 {
        '1'
    } else if d == 2 {
        '2'
    } else if d == 3 {
        '3'
    } else if d == 4 {
        '4'
    } else if d == 5 {
        '5'
    } else if d == 6 {
        '6'
    } else if d == 7 {
        '7'
    } else if d == 8 {
        '8'
    } else {
        '9'
    }
}

/// The decimal digits of `n`, most significant first.
pub open spec fn spec_digits(n: nat) -> Seq<char>
    decreases n,
{
    if n < 10 {
        seq![digit_char(n as int)]
    } else {
        spec_digits(n / 10).push(digit_char((n % 10) as int))
    }
}

/// Thousandths rounded to the nearest tenth, ties away from zero.
pub open spec fn tenths_of_milli(m: int) -> int {
    if m >= 0 {
        (m + 50) / 100
    } else {
        -(((-m) + 50) / 100)
    }
}

/// The one-decimal rendering of a value given in tenths: an optional minus
/// sign, the integer part, a dot, and the final tenths digit.
pub open spec fn tenths_chars(t: int) -> Seq<char> {
    let a = if t >= 0 {
        t
    } else {
        -t
    };
    let sign: Seq<char> = if t < 0 {
        seq!['-']
    } else {
        seq![]
    };
    sign + spec_digits((a / 10) as nat) + seq!['.'] + seq![digit_char(a % 10)]
}

/// The one-decimal rendering of a scalar given in thousandths.
pub open spec fn spec_one_decimal(m: int) -> Seq<char> {
    tenths_chars(tenths_of_milli(m))
}

/// Whether `f` renders the components of `v` to one decimal place.
pub open spec fn vec3_formatted(f: FormattedVec3, v: Vec3Milli) -> bool {
    &&& f.x@ == spec_one_decimal(v.x as int)
    &&& f.y@ == spec_one_decimal(v.y as int)
    &&& f.z@ == spec_one_decimal(v.z as int)
}

/// Relies on `String::push`: appends the given character to the end of the
/// string.
#[verifier::external_body]
fn push_char(s: &mut String, c: char)
    ensures
        final(s)@ == old(s)@.push(c),
{
    s.push(c);
}

/// The decimal digit character for `d`.
fn digit_to_char(d: u64) -> (c: char)
    requires
        d < 10,
    ensures
        c == digit_char(d as int),
{
    if d == 0 {
        '0'
    } else if d == 1 {
        '1'
    } else if d == 2 {
        '2'
    } else if d == 3 {
        '3'
    } else if d == 4 {
        '4'
    } else if d == 5 {
        '5'
    } else if d == 6 {
        '6'
    } else if d == 7 {
        '7'
    } else if d == 8 {
        '8'
    } else {
        '9'
    }
}

/// Append the decimal digits of `n`, most significant first.
fn push_digits(s: &mut String, n: u64)
    ensures
        final(s)@ == old(s)@ + spec_digits(n as nat),
    decreases n,
{
    if n >= 10 {
        push_digits(s, n / 10);
    }
    let c = digit_to_char(n % 10);
    push_char(s, c);
    proof {
        if n < 10 {
            assert(s@ =~= old(s)@ + spec_digits(n as nat));
        } else {
            assert(spec_digits(n as nat) == spec_digits(n as nat / 10).push(
                digit_char((n as nat % 10) as int),
            ));
            assert(s@ =~= old(s)@ + spec_digits(n as nat));
        }
    }
}

/// Render a scalar given in thousandths with one decimal digit, rounding to
/// the nearest tenth, ties away from zero.
pub fn format_one_decimal(milli: i64) -> (r: String)
    requires
        scalar_ok(milli),
    ensures
        r@ == spec_one_decimal(milli as int),
{
    let neg = milli < 0;
    let a: u64 = if neg {
        (-milli) as u64
    } else {
        milli as u64
    };
    let t: u64 = (a + 50) / 100;
    proof {
        assert(tenths_of_milli(milli as int) == if neg {
            -(t as int)
        } else {
            t as int
        });
    }
    let mut s = String::new();
    if neg && t > 0 {
        push_char(&mut s, '-');
    }
    push_digits(&mut s, t / 10);
    push_char(&mut s, '.');
    let c = digit_to_char(t % 10);
    push_char(&mut s, c);
    proof {
        assert(s@ =~= spec_one_decimal(milli as int));
    }
    s
}

/// Render each component of `v` to one decimal place.
pub fn format_vec3(v: &Vec3Milli) -> (r: FormattedVec3)
    requires
        scalar_ok(v.x),
        scalar_ok(v.y),
        scalar_ok(v.z),
    ensures
        vec3_formatted(r, *v),
{
    FormattedVec3 { x: format_one_decimal(v.x), y: format_one_decimal(v.y), z: format_one_decimal(v.z) }
}

} // verus!
