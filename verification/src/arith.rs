//! Fixed-width integer arithmetic: wrap-around, arithmetic shifts and truncating division.
use vstd::prelude::*;

verus! {

/// The value that a 32-bit two's complement register holds after `x` was stored in it.
pub open spec fn wrap32(x: int) -> int {
    (x + 0x8000_0000) % 0x1_0000_0000 - 0x8000_0000
}

/// The value that a 64-bit two's complement register holds after `x` was stored in it.
pub open spec fn wrap64(x: int) -> int {
    (x + 0x8000_0000_0000_0000) % 0x1_0000_0000_0000_0000 - 0x8000_0000_0000_0000
}

/// Quotient rounded toward zero.
pub open spec fn trunc_div(a: int, b: int) -> int {
    if a >= 0 {
        a / b
    } else {
        -((-a) / b)
    }
}

/// `x` moved into the range `lo..=hi`.
pub open spec fn clamped(x: int, lo: int, hi: int) -> int {
    if x < lo {
        lo
    } else if x > hi {
        hi
    } else {
        x
    }
}

pub open spec fn min_of(a: int, b: int) -> int {
    if a <= b {
        a
    } else {
        b
    }
}

pub fn mul32(a: i32, b: i32) -> (r: i32)
    ensures
        r == wrap32(a * b),
{
    a.wrapping_mul(b)
}

pub fn add32(a: i32, b: i32) -> (r: i32)
    ensures
        r == wrap32(a + b),
{
    a.wrapping_add(b)
}

pub fn sub32(a: i32, b: i32) -> (r: i32)
    ensures
        r == wrap32(a - b),
{
    a.wrapping_sub(b)
}

pub fn mul64(a: i64, b: i64) -> (r: i64)
    ensures
        r == wrap64(a * b),
{
    a.wrapping_mul(b)
}

pub fn add64(a: i64, b: i64) -> (r: i64)
    ensures
        r == wrap64(a + b),
{
    a.wrapping_add(b)
}

/// Division of 64-bit numbers, rounded toward zero.
pub fn div64(a: i64, b: i64) -> (r: i64)
    requires
        b != 0,
        a != i64::MIN,
    ensures
        r == trunc_div(a as int, b as int),
{
    proof {
        let x = if a >= 0 {
            a as int
        } else {
            -(a as int)
        };
        quotient_is_no_larger(x, b as int);
    }
    a / b
}

/// Arithmetic shift right of a 32-bit value: division by a power of two, rounded down.
pub fn asr32(x: i32, bits: u32) -> (r: i32)
    requires
        bits < 31,
    ensures
        r == x as int / vstd::arithmetic::power2::pow2(bits as nat) as int,
{
    proof {
        shift_is_division32(x, bits);
    }
    x >> bits
}

/// Arithmetic shift right of a 64-bit value: division by a power of two, rounded down.
pub fn asr64(x: i64, bits: u32) -> (r: i64)
    requires
        bits < 63,
    ensures
        r == x as int / vstd::arithmetic::power2::pow2(bits as nat) as int,
{
    proof {
        shift_is_division64(x, bits);
    }
    x >> bits
}

/// The average of numbers that all lie between two bounds lies between them too.
pub proof fn lemma_mean_in_range(sum: int, count: int, lo: int, hi: int)
    requires
        count > 0,
        lo * count <= sum <= hi * count,
    ensures
        lo <= trunc_div(sum, count) <= hi,
        sum >= 0 ==> trunc_div(sum, count) == sum / count,
{
    if sum >= 0 {
        let q = sum / count;
        vstd::arithmetic::div_mod::lemma_fundamental_div_mod(sum, count);
        assert(lo <= q <= hi) by (nonlinear_arith)
            requires
                count > 0,
                lo * count <= sum <= hi * count,
                sum == count * q + sum % count,
                0 <= sum % count < count,
        ;
    } else {
        let q = (-sum) / count;
        vstd::arithmetic::div_mod::lemma_fundamental_div_mod(-sum, count);
        assert(lo <= -q <= hi) by (nonlinear_arith)
            requires
                count > 0,
                lo * count <= sum <= hi * count,
                -sum == count * q + (-sum) % count,
                0 <= (-sum) % count < count,
        ;
    }
}

/// One more of the same adds it once.
pub proof fn lemma_one_more(x: int, n: int)
    ensures
        x * n == x * (n - 1) + x,
{
    assert(x * n == x * (n - 1) + x) by (nonlinear_arith);
}

/// The sum of 32-bit many 32-bit numbers fits into 64 bits.
pub proof fn lemma_product_fits(x: int, n: int)
    requires
        i32::MIN <= x <= u32::MAX,
        0 <= n <= u32::MAX,
    ensures
        i64::MIN <= x * n <= u64::MAX,
        x <= i32::MAX ==> x * n <= i64::MAX,
{
    assert(-0x8000_0000 * n <= x * n <= 0xffff_ffff * n) by (nonlinear_arith)
        requires
            -0x8000_0000 <= x <= 0xffff_ffff,
            0 <= n,
    ;
    if x <= i32::MAX {
        assert(x * n <= 0x7fff_ffff * n) by (nonlinear_arith)
            requires
                x <= 0x7fff_ffff,
                0 <= n,
        ;
    }
}

/// The quotient of a number that is not negative is no larger than the number, in magnitude.
proof fn quotient_is_no_larger(x: int, d: int)
    requires
        x >= 0,
        d != 0,
    ensures
        -x <= x / d <= x,
{
    let q = x / d;
    let m = x % d;
    assert(x == d * q + m && 0 <= m && (d > 0 ==> m < d) && (d < 0 ==> m < -d)) by (nonlinear_arith)
        requires
            d != 0,
            q == x / d,
            m == x % d,
    ;
    assert(-x <= q <= x) by (nonlinear_arith)
        requires
            x >= 0,
            d != 0,
            x == d * q + m,
            0 <= m,
            d > 0 ==> m < d,
            d < 0 ==> m < -d,
    ;
}

/// Dividing by `c` and then by two is dividing by `2 * c`, for negative values too.
proof fn halved_quotient(x: int, c: int)
    requires
        c > 0,
    ensures
        (x / c) / 2 == x / (2 * c),
{
    let q = x / c;
    let r = x % c;
    let h = q / 2;
    let b = q % 2;
    vstd::arithmetic::div_mod::lemma_fundamental_div_mod(x, c);
    vstd::arithmetic::div_mod::lemma_fundamental_div_mod(q, 2);
    assert(x == h * (2 * c) + (c * b + r)) by (nonlinear_arith)
        requires
            x == c * q + r,
            q == 2 * h + b,
    ;
    assert(0 <= c * b + r < 2 * c) by (nonlinear_arith)
        requires
            0 <= b <= 1,
            0 <= r < c,
    ;
    vstd::arithmetic::div_mod::lemma_fundamental_div_mod_converse(x, 2 * c, h, c * b + r);
}

proof fn shift_is_division32(x: i32, bits: u32)
    requires
        bits < 31,
    ensures
        (x >> bits) as int == x as int / vstd::arithmetic::power2::pow2(bits as nat) as int,
    decreases bits,
{
    vstd::arithmetic::power2::lemma2_to64();
    if bits == 0 {
        assert((x >> 0u32) == x) by (bit_vector);
    } else {
        let less: u32 = (bits - 1) as u32;
        shift_is_division32(x, less);
        assert(0 < bits < 31 && less == bits - 1 ==> (x >> bits) as int == (x >> less) as int / 2)
            by (bit_vector);
        vstd::arithmetic::power2::lemma_pow2_unfold(bits as nat);
        vstd::arithmetic::power2::lemma_pow2_pos(less as nat);
        halved_quotient(x as int, vstd::arithmetic::power2::pow2(less as nat) as int);
    }
}

proof fn shift_is_division64(x: i64, bits: u32)
    requires
        bits < 63,
    ensures
        (x >> bits) as int == x as int / vstd::arithmetic::power2::pow2(bits as nat) as int,
    decreases bits,
{
    vstd::arithmetic::power2::lemma2_to64();
    if bits == 0 {
        assert((x >> 0u32) == x) by (bit_vector);
    } else {
        let less: u32 = (bits - 1) as u32;
        shift_is_division64(x, less);
        assert(0 < bits < 63 && less == bits - 1 ==> (x >> bits) as int == (x >> less) as int / 2)
            by (bit_vector);
        vstd::arithmetic::power2::lemma_pow2_unfold(bits as nat);
        vstd::arithmetic::power2::lemma_pow2_pos(less as nat);
        halved_quotient(x as int, vstd::arithmetic::power2::pow2(less as nat) as int);
    }
}

/// A 32-bit two's complement register holds `kept` where `x` was stored in it: a number of its range
/// that differs from `x` by a multiple of its size.
pub open spec fn holds32(kept: int, x: int) -> bool {
    -0x8000_0000 <= kept <= 0x7fff_ffff && (kept - x) % 0x1_0000_0000 == 0
}

/// A 64-bit two's complement register holds `kept` where `x` was stored in it.
pub open spec fn holds64(kept: int, x: int) -> bool {
    &&& -0x8000_0000_0000_0000 <= kept <= 0x7fff_ffff_ffff_ffff
    &&& (kept - x) % 0x1_0000_0000_0000_0000 == 0
}

/// A 32-bit register holds one number, that number differs from what was stored by a multiple of the
/// register's size, and what fits is held as it is.
pub proof fn law_register32_holds_one_number(x: int, kept: int)
    ensures
        holds32(kept, x) <==> kept == wrap32(x),
        -0x8000_0000 <= x <= 0x7fff_ffff ==> wrap32(x) == x,
        -0x8000_0000 <= wrap32(x) <= 0x7fff_ffff,
        wrap32(x + 0x1_0000_0000) == wrap32(x),
{
    let k = (x + 0x8000_0000) / 0x1_0000_0000;
    assert(wrap32(x) - x == -(0x1_0000_0000 * k));
    assert((wrap32(x) - x) % 0x1_0000_0000 == 0);
    if holds32(kept, x) {
        lemma_held32(kept, x);
    }
}

/// A 64-bit register holds one number, that number differs from what was stored by a multiple of the
/// register's size, and what fits is held as it is.
pub proof fn law_register64_holds_one_number(x: int, kept: int)
    ensures
        holds64(kept, x) <==> kept == wrap64(x),
        -0x8000_0000_0000_0000 <= x <= 0x7fff_ffff_ffff_ffff ==> wrap64(x) == x,
        -0x8000_0000_0000_0000 <= wrap64(x) <= 0x7fff_ffff_ffff_ffff,
        wrap64(x + 0x1_0000_0000_0000_0000) == wrap64(x),
{
    let k = (x + 0x8000_0000_0000_0000) / 0x1_0000_0000_0000_0000;
    assert(wrap64(x) - x == -(0x1_0000_0000_0000_0000 * k));
    assert((wrap64(x) - x) % 0x1_0000_0000_0000_0000 == 0);
    if holds64(kept, x) {
        lemma_held64(kept, x);
    }
}

/// What a 32-bit register holds is what storing it leaves.
pub proof fn lemma_held32(kept: int, x: int)
    requires
        holds32(kept, x),
    ensures
        wrap32(x) == kept,
{
    let j = (kept - x) / 0x1_0000_0000;
    assert(x + 0x8000_0000 == 0x1_0000_0000 * (-j) + (kept + 0x8000_0000));
}

/// What a 64-bit register holds is what storing it leaves.
pub proof fn lemma_held64(kept: int, x: int)
    requires
        holds64(kept, x),
    ensures
        wrap64(x) == kept,
{
    let j = (kept - x) / 0x1_0000_0000_0000_0000;
    assert(x + 0x8000_0000_0000_0000 == 0x1_0000_0000_0000_0000 * (-j) + (kept
        + 0x8000_0000_0000_0000));
}

/// A quotient that leaves a remainder smaller than the divisor, with the sign of the dividend, is
/// the quotient rounded toward zero.
pub proof fn law_quotient_is_rounded_toward_zero(a: int, b: int, q: int, rest: int)
    requires
        b != 0,
        a == b * q + rest,
        b > 0 ==> -b < rest < b,
        b < 0 ==> b < rest < -b,
        a >= 0 ==> rest >= 0,
        a <= 0 ==> rest <= 0,
    ensures
        trunc_div(a, b) == q,
{
    if a >= 0 {
        euclidean_quotient(a, b, q, rest);
    } else {
        assert(-a == b * (-q) + (-rest)) by (nonlinear_arith)
            requires
                a == b * q + rest,
        ;
        euclidean_quotient(-a, b, -q, -rest);
    }
}

/// The Euclidean quotient is the only one with a remainder that is not negative and smaller than
/// the divisor.
proof fn euclidean_quotient(a: int, b: int, q: int, rest: int)
    requires
        b != 0,
        a == b * q + rest,
        0 <= rest,
        b > 0 ==> rest < b,
        b < 0 ==> rest < -b,
    ensures
        a / b == q,
{
    let p = a / b;
    let m = a % b;
    assert(a == b * p + m && 0 <= m && (b > 0 ==> m < b) && (b < 0 ==> m < -b)) by (nonlinear_arith)
        requires
            b != 0,
            p == a / b,
            m == a % b,
    ;
    assert(p == q) by (nonlinear_arith)
        requires
            b != 0,
            b * p + m == b * q + rest,
            0 <= m,
            0 <= rest,
            b > 0 ==> m < b && rest < b,
            b < 0 ==> m < -b && rest < -b,
    ;
}

/// What a 64-bit register makes of a product does not depend on when the factors wrapped around.
pub proof fn lemma_wrapped_factor64(x: int, k: int)
    ensures
        wrap64(wrap64(x) * k) == wrap64(x * k),
{
    let m = (x + 0x8000_0000_0000_0000) / 0x1_0000_0000_0000_0000;
    let w = wrap64(x);
    assert(w == x - 0x1_0000_0000_0000_0000 * m);
    assert(w * k == x * k - 0x1_0000_0000_0000_0000 * (m * k)) by (nonlinear_arith)
        requires
            w == x - 0x1_0000_0000_0000_0000 * m,
    ;
    lemma_same_wrap64(w * k, x * k, m * k);
}

/// What a 64-bit register makes of a sum does not depend on when its first part wrapped around.
pub proof fn lemma_wrapped_summand64(x: int, y: int)
    ensures
        wrap64(wrap64(x) + y) == wrap64(x + y),
{
    let m = (x + 0x8000_0000_0000_0000) / 0x1_0000_0000_0000_0000;
    assert(wrap64(x) == x - 0x1_0000_0000_0000_0000 * m);
    lemma_same_wrap64(wrap64(x) + y, x + y, m);
}

/// What a 32-bit register makes of a difference does not depend on when its parts wrapped around.
pub proof fn lemma_wrapped_difference32(x: int, y: int)
    ensures
        wrap32(wrap32(x) - wrap32(y)) == wrap32(x - y),
        wrap32(wrap32(x) - y) == wrap32(x - y),
{
    let m = (x + 0x8000_0000) / 0x1_0000_0000;
    let n = (y + 0x8000_0000) / 0x1_0000_0000;
    assert(wrap32(x) == x - 0x1_0000_0000 * m);
    assert(wrap32(y) == y - 0x1_0000_0000 * n);
    lemma_same_wrap32(wrap32(x) - wrap32(y), x - y, m - n);
    lemma_same_wrap32(wrap32(x) - y, x - y, m);
}

/// Numbers that differ by a multiple of the register's size are held as the same number.
proof fn lemma_same_wrap32(a: int, b: int, m: int)
    requires
        a == b - 0x1_0000_0000 * m,
    ensures
        wrap32(a) == wrap32(b),
{
    let k = (b + 0x8000_0000) / 0x1_0000_0000;
    assert(wrap32(b) - a == 0x1_0000_0000 * (m - k));
    lemma_held32(wrap32(b), a);
}

/// Numbers that differ by a multiple of the register's size are held as the same number.
proof fn lemma_same_wrap64(a: int, b: int, m: int)
    requires
        a == b - 0x1_0000_0000_0000_0000 * m,
    ensures
        wrap64(a) == wrap64(b),
{
    let k = (b + 0x8000_0000_0000_0000) / 0x1_0000_0000_0000_0000;
    assert(wrap64(b) - a == 0x1_0000_0000_0000_0000 * (m - k));
    lemma_held64(wrap64(b), a);
}

/// A number inside a range is left as it is, and one outside is moved to the nearer end.
pub proof fn law_clamped_number_is_the_nearest(x: int, lo: int, hi: int, other: int)
    requires
        lo <= hi,
    ensures
        lo <= clamped(x, lo, hi) <= hi,
        lo <= x <= hi ==> clamped(x, lo, hi) == x,
        x <= lo ==> clamped(x, lo, hi) == lo,
        x >= hi ==> clamped(x, lo, hi) == hi,
        min_of(x, hi) <= x && min_of(x, hi) <= hi,
        other <= x && other <= hi ==> other <= min_of(x, hi),
{
}

/// The sum of some numbers.
pub open spec fn total(numbers: Seq<int>) -> int
    decreases numbers.len(),
{
    if numbers.len() == 0 {
        0
    } else {
        total(numbers.drop_last()) + numbers.last()
    }
}

/// `mean` is `sum` divided by `count`, rounded toward zero.
pub open spec fn is_mean(mean: int, sum: int, count: int) -> bool {
    &&& sum >= 0 ==> 0 <= sum - mean * count < count
    &&& sum <= 0 ==> -count < sum - mean * count <= 0
}

/// Dividing toward zero gives the mean.
pub proof fn lemma_quotient_is_mean(sum: int, count: int)
    requires
        count > 0,
    ensures
        is_mean(trunc_div(sum, count), sum, count),
{
    if sum >= 0 {
        vstd::arithmetic::div_mod::lemma_fundamental_div_mod(sum, count);
        assert(count * (sum / count) == (sum / count) * count) by (nonlinear_arith);
    } else {
        vstd::arithmetic::div_mod::lemma_fundamental_div_mod(-sum, count);
        let q = (-sum) / count;
        assert((-q) * count == -(count * q)) by (nonlinear_arith);
    }
}

/// A mean is the only one: no other number is as near to the quotient on the side of zero.
pub proof fn law_mean_is_the_only_one(a: int, b: int, sum: int, count: int)
    requires
        count > 0,
        is_mean(a, sum, count),
        is_mean(b, sum, count),
    ensures
        a == b,
{
    assert(a == b) by (nonlinear_arith)
        requires
            count > 0,
            -count < (sum - a * count) - (sum - b * count) < count,
    ;
}

/// The total of some numbers and one more is larger by that one.
pub proof fn law_total_adds_up(numbers: Seq<int>, more: int)
    ensures
        total(Seq::<int>::empty()) == 0,
        total(numbers.push(more)) == total(numbers) + more,
{
    assert(numbers.push(more).drop_last() =~= numbers);
}

} // verus!
