//! Fixed-point arithmetic shared by the glyph loader.
//!
//! Every operation is defined on mathematical integers and then reduced to
//! 32 bits in two's complement, so that results are the same on every
//! platform and for every input.

use vstd::prelude::*;

verus! {

/// The value of `v` reduced to 32 bits in two's complement.
#[verifier::opaque]
pub open spec fn wrap_i32(v: int) -> i32 {
    ((v + 0x8000_0000) % 0x1_0000_0000 - 0x8000_0000) as i32
}

/// The magnitude of `v`.
pub open spec fn magnitude(v: int) -> int {
    if v < 0 {
        -v
    } else {
        v
    }
}

/// `v`, negated where `negative` holds.
pub open spec fn with_sign(negative: bool, v: int) -> int {
    if negative {
        -v
    } else {
        v
    }
}

/// 16.16 product of `a` and `b`: `a * b / 65536`, rounded to the nearest
/// integer with ties away from zero.
#[verifier::opaque]
pub open spec fn spec_mul(a: i32, b: i32) -> i32 {
    let ab = a as int * b as int;
    wrap_i32(
        (ab + 0x8000 - (if ab < 0 {
            1int
        } else {
            0int
        })) / 0x1_0000,
    )
}

/// 16.16 quotient of `a` and `b`: `a * 65536 / b` with the magnitude rounded
/// half up and the sign restored afterwards; division by zero saturates.
#[verifier::opaque]
pub open spec fn spec_div(a: i32, b: i32) -> i32 {
    let negative = (a < 0) != (b < 0);
    let q = if b == 0 {
        0x7FFF_FFFFint
    } else {
        (magnitude(a as int) * 0x1_0000 + magnitude(b as int) / 2) / magnitude(b as int)
    };
    wrap_i32(with_sign(negative, q))
}

/// `a * b / c` with the magnitude rounded half up and the sign restored
/// afterwards; division by zero saturates.
#[verifier::opaque]
pub open spec fn spec_muldiv(a: i32, b: i32, c: i32) -> i32 {
    let negative = ((a < 0) != (b < 0)) != (c < 0);
    let d = if c == 0 {
        0x7FFF_FFFFint
    } else {
        (magnitude(a as int) * magnitude(b as int) + magnitude(c as int) / 2) / magnitude(
            c as int,
        )
    };
    wrap_i32(with_sign(negative, d))
}

/// The largest multiple of 64 that is at most `x`.
#[verifier::opaque]
pub open spec fn spec_floor(x: i32) -> i32 {
    (x - x as int % 64) as i32
}

/// `x` in 26.6 rounded to the nearest whole pixel, halves upwards.
#[verifier::opaque]
pub open spec fn spec_round(x: i32) -> i32 {
    spec_floor(wrap_i32(x + 32))
}

/// Estimate of the length of the vector `(a, b)`: the larger magnitude plus
/// three eighths of the smaller one.
#[verifier::opaque]
pub open spec fn spec_hypot(a: i32, b: i32) -> i32 {
    let x = magnitude(a as int);
    let y = magnitude(b as int);
    if x > y {
        wrap_i32(x + (3 * y) / 8)
    } else {
        wrap_i32(y + (3 * x) / 8)
    }
}

/// The point `(x, y)` under the matrix with 16.16 entries `xx yx xy yy`.
#[verifier::opaque]
pub open spec fn spec_transform(x: i32, y: i32, xx: i32, yx: i32, xy: i32, yy: i32) -> (i32, i32) {
    (
        wrap_i32(spec_muldiv(x, xx, 0x1_0000) + spec_muldiv(y, xy, 0x1_0000)),
        wrap_i32(spec_muldiv(x, yx, 0x1_0000) + spec_muldiv(y, yy, 0x1_0000)),
    )
}

/// The factor 1.0 in 16.16, which is `1 << 16`, leaves every value as it is.
pub proof fn lemma_mul_unity(x: i32)
    ensures
        spec_mul(x, 0x1_0000) == x,
{
    reveal(spec_mul);
    reveal(wrap_i32);
    let ab = x as int * 0x1_0000;
    assert((ab + 0x8000 - (if ab < 0 {
        1int
    } else {
        0int
    })) / 0x1_0000 == x);
}

/// The factor `1 << 6` is 1/1024 in 16.16: it leaves zero as it is and no
/// other value.
pub proof fn lemma_mul_by_64(x: i32)
    ensures
        spec_mul(x, 1 << 6) == x <==> x == 0,
{
    reveal(spec_mul);
    reveal(wrap_i32);
    assert(1i32 << 6 == 64i32) by (bit_vector);
    let ab = x as int * 64;
    let q = (ab + 0x8000 - (if ab < 0 {
        1int
    } else {
        0int
    })) / 0x1_0000;
    assert(-0x20_0001 <= q <= 0x20_0000);
    assert(q == x <==> x == 0);
}

/// Reduces a 64-bit value to 32 bits in two's complement.
pub fn wrap_to_i32(v: i64) -> (r: i32)
    ensures
        r == wrap_i32(v as int),
{
    proof {
        reveal(wrap_i32);
    }
    let shifted: i128 = v as i128 + 0x1_0000_0000_8000_0000;
    let low: u128 = (shifted as u128) % 0x1_0000_0000;
    assert(low as int == (v + 0x8000_0000) % 0x1_0000_0000);
    (low as i64 - 0x8000_0000) as i32
}

/// The magnitude of `v`, which always fits in 64 bits.
fn abs64(v: i32) -> (r: u64)
    ensures
        r == magnitude(v as int),
        r <= 0x8000_0000,
{
    if v < 0 {
        (-(v as i64)) as u64
    } else {
        v as u64
    }
}

/// Multiplies two 16.16 values.
pub fn mul(a: i32, b: i32) -> (r: i32)
    ensures
        r == spec_mul(a, b),
{
    proof {
        reveal(spec_mul);
    }
    let negative = (a < 0) != (b < 0);
    let x = abs64(a);
    let y = abs64(b);
    assert(x * y <= 0x4000_0000_0000_0000) by (nonlinear_arith)
        requires
            x <= 0x8000_0000,
            y <= 0x8000_0000,
    ;
    let p: u64 = x * y;
    let ghost ab = (a as int) * (b as int);
    assert(ab == with_sign(negative, p as int) && ((ab < 0) == (negative && p > 0)))
        by (nonlinear_arith)
        requires
            ab == (a as int) * (b as int),
            x == magnitude(a as int),
            y == magnitude(b as int),
            negative == ((a < 0) != (b < 0)),
            p == x * y,
    ;
    if negative && p > 0 {
        // floor((-p + 0x7fff) / 0x10000) == -ceil((p - 0x7fff) / 0x10000)
        let q: u64 = (p + 0x8000) / 0x1_0000;
        assert((-(p as int) + 0x7fff) / 0x1_0000 == -(q as int));
        wrap_to_i32(-(q as i64))
    } else {
        let q: u64 = (p + 0x8000) / 0x1_0000;
        wrap_to_i32(q as i64)
    }
}

/// Divides two integers, giving a 16.16 quotient.
pub fn div(a: i32, b: i32) -> (r: i32)
    ensures
        r == spec_div(a, b),
{
    proof {
        reveal(spec_div);
    }
    let negative = (a < 0) != (b < 0);
    let x = abs64(a);
    let y = abs64(b);
    let q: u64 = if y == 0 {
        0x7FFF_FFFF
    } else {
        (x * 0x1_0000 + y / 2) / y
    };
    assert(q <= 0x8000_4000_0000) by (nonlinear_arith)
        requires
            x <= 0x8000_0000,
            y <= 0x8000_0000,
            q as int == if y == 0 {
                0x7FFF_FFFFint
            } else {
                (x as int * 0x1_0000 + y as int / 2) / (y as int)
            },
    ;
    if negative {
        wrap_to_i32(-(q as i64))
    } else {
        wrap_to_i32(q as i64)
    }
}

/// Multiplies `a` by `b` and divides the product by `c`.
pub fn muldiv(a: i32, b: i32, c: i32) -> (r: i32)
    ensures
        r == spec_muldiv(a, b, c),
{
    proof {
        reveal(spec_muldiv);
    }
    let negative = ((a < 0) != (b < 0)) != (c < 0);
    let x = abs64(a);
    let y = abs64(b);
    let z = abs64(c);
    assert(x * y <= 0x4000_0000_0000_0000) by (nonlinear_arith)
        requires
            x <= 0x8000_0000,
            y <= 0x8000_0000,
    ;
    let d: u64 = if z == 0 {
        0x7FFF_FFFF
    } else {
        (x * y + z / 2) / z
    };
    assert(d <= 0x4000_0000_4000_0000) by (nonlinear_arith)
        requires
            x * y <= 0x4000_0000_0000_0000,
            z <= 0x8000_0000,
            d as int == if z == 0 {
                0x7FFF_FFFFint
            } else {
                (x as int * y as int + z as int / 2) / (z as int)
            },
    ;
    if negative {
        wrap_to_i32(-(d as i64))
    } else {
        wrap_to_i32(d as i64)
    }
}

/// Rounds a 26.6 value down to a whole pixel.
pub fn floor(x: i32) -> (r: i32)
    ensures
        r == spec_floor(x),
{
    proof {
        reveal(spec_floor);
    }
    let rem: u64 = ((x as i64 + 0x8000_0000) as u64) % 64;
    assert(rem as int == x as int % 64);
    (x as i64 - rem as i64) as i32
}

/// Rounds a 26.6 value to the nearest whole pixel.
pub fn round(x: i32) -> (r: i32)
    ensures
        r == spec_round(x),
{
    proof {
        reveal(spec_round);
    }
    self::floor(wrap_to_i32(x as i64 + 32))
}

/// Estimates the length of the vector `(a, b)`.
pub fn hypot(a: i32, b: i32) -> (r: i32)
    ensures
        r == spec_hypot(a, b),
{
    proof {
        reveal(spec_hypot);
    }
    let x = abs64(a);
    let y = abs64(b);
    if x > y {
        wrap_to_i32((x + (3 * y) / 8) as i64)
    } else {
        wrap_to_i32((y + (3 * x) / 8) as i64)
    }
}

/// Applies a 2x2 matrix with 16.16 entries to the point `(x, y)`.
pub fn transform(x: i32, y: i32, xx: i32, yx: i32, xy: i32, yy: i32) -> (r: (i32, i32))
    ensures
        r == spec_transform(x, y, xx, yx, xy, yy),
{
    proof {
        reveal(spec_transform);
    }
    let ax = self::muldiv(x, xx, 0x1_0000);
    let bx = self::muldiv(y, xy, 0x1_0000);
    let ay = self::muldiv(x, yx, 0x1_0000);
    let by = self::muldiv(y, yy, 0x1_0000);
    (wrap_to_i32(ax as i64 + bx as i64), wrap_to_i32(ay as i64 + by as i64))
}

} // verus!
