//! Factory calibration of a BME280/BMP280 and the compensation of its raw samples.
//!
//! The formulas are the vendor's fixed-point ones. Each intermediate result is kept in a register
//! of 32 or 64 bits and wraps around where it does not fit, so every calibration and every raw
//! sample has a result.
use vstd::prelude::*;

use vstd::arithmetic::power2::{lemma2_to64, lemma2_to64_rest};

use crate::arith::{add32, add64, asr32, asr64, div64, mul32, mul64, sub32};
use crate::bytes::{i16_from_le, i8_from_byte, u16_from_le};

verus! {

/// Largest compensated humidity: 100 %RH in steps of 1/1024 %RH.
pub const HUMIDITY_Q1024_MAX: u32 = 102_400;

/// Trimming values of one sensor, and the fine temperature of its last temperature sample.
#[derive(Clone, Copy, Debug, PartialEq, Eq)]
pub struct Calibration {
    pub dig_t1: u16,
    pub dig_t2: i16,
    pub dig_t3: i16,
    pub dig_p1: u16,
    pub dig_p2: i16,
    pub dig_p3: i16,
    pub dig_p4: i16,
    pub dig_p5: i16,
    pub dig_p6: i16,
    pub dig_p7: i16,
    pub dig_p8: i16,
    pub dig_p9: i16,
    pub dig_h1: u8,
    pub dig_h2: i16,
    pub dig_h3: u8,
    pub dig_h4: i16,
    pub dig_h5: i16,
    pub dig_h6: i8,
    pub t_fine: i32,
}

/// Register contents of the trimming values: `first` is the block at 0x88, `second` the block at
/// 0xe1.
pub open spec fn parsed(first: Seq<u8>, second: Seq<u8>) -> Calibration {
    Calibration {
        dig_t1: crate::bytes::le16(first[0], first[1]) as u16,
        dig_t2: trim(first, 2),
        dig_t3: trim(first, 4),
        dig_p1: crate::bytes::le16(first[6], first[7]) as u16,
        dig_p2: trim(first, 8),
        dig_p3: trim(first, 10),
        dig_p4: trim(first, 12),
        dig_p5: trim(first, 14),
        dig_p6: trim(first, 16),
        dig_p7: trim(first, 18),
        dig_p8: trim(first, 20),
        dig_p9: trim(first, 22),
        dig_h1: first[25],
        dig_h2: trim(second, 0),
        dig_h3: second[2],
        dig_h4: (16 * crate::bytes::signed(second[3] as int, 0x80) + second[4] % 16) as i16,
        dig_h5: (16 * crate::bytes::signed(second[5] as int, 0x80) + second[4] / 16) as i16,
        dig_h6: crate::bytes::signed(second[6] as int, 0x80) as i8,
        t_fine: 0,
    }
}

/// The signed trimming value at offset `at` of a register block.
pub open spec fn trim(block: Seq<u8>, at: int) -> i16 {
    crate::bytes::signed(crate::bytes::le16(block[at], block[at + 1]), 0x8000) as i16
}

impl Calibration {
    /// The fine temperature is one that a temperature sample can give.
    pub open spec fn wf(self) -> bool {
        -0x12_0000 <= self.t_fine < 0x12_0000
    }

    /// Fine temperature of the raw sample `adc_t`.
    pub open spec fn fine_temperature(self, adc_t: int) -> int {
        let offset = adc_t / 16 - self.dig_t1;
        let linear = crate::arith::wrap32((adc_t / 8 - 2 * self.dig_t1) * self.dig_t2) / 2048;
        let quadratic = crate::arith::wrap32(
            (crate::arith::wrap32(offset * offset) / 4096) * self.dig_t3,
        ) / 16384;
        linear + quadratic
    }

    /// Temperature in hundredths of a degree that a fine temperature stands for.
    pub open spec fn temperature(t_fine: int) -> int {
        (5 * t_fine + 128) / 256
    }

    /// Offset term of the pressure formula.
    pub open spec fn pressure_offset(self) -> int {
        let d = self.t_fine - 128_000;
        d * d * self.dig_p6 + d * self.dig_p5 * 0x2_0000 + self.dig_p4 * 0x8_0000_0000
    }

    /// Divisor of the pressure formula.
    pub open spec fn pressure_divisor(self) -> int {
        let d = self.t_fine - 128_000;
        crate::arith::wrap64(
            (0x8000_0000_0000 + (d * d * self.dig_p3 / 256 + d * self.dig_p2 * 4096)) * self.dig_p1,
        ) / 0x2_0000_0000
    }

    /// Pressure in steps of 1/256 Pa, from the quotient `q` of the pressure formula.
    pub open spec fn pressure_polished(self, q: int) -> int {
        let square = crate::arith::wrap64(
            crate::arith::wrap64(self.dig_p9 * (q / 8192)) * (q / 8192),
        ) / 0x200_0000;
        let linear = crate::arith::wrap64(self.dig_p8 * q) / 0x8_0000;
        crate::arith::wrap64(crate::arith::wrap64(q + square) + linear) / 256 + self.dig_p7 * 16
    }

    /// Pressure in Pa of the raw sample `adc_p`.
    pub open spec fn pressure(self, adc_p: int) -> int {
        if self.pressure_divisor() == 0 {
            0
        } else {
            let q = crate::arith::trunc_div(
                crate::arith::wrap64(
                    ((1_048_576 - adc_p) * 0x8000_0000 - self.pressure_offset()) * 3125,
                ),
                self.pressure_divisor(),
            );
            self.pressure_polished(q) / 256 % 0x1_0000_0000
        }
    }

    /// First factor of the humidity formula: the raw sample less its offset.
    pub open spec fn humidity_sample(self, adc_h: int) -> int {
        let v = self.t_fine - 76_800;
        let shifted = crate::arith::wrap32(
            crate::arith::wrap32(adc_h * 0x4000) - crate::arith::wrap32(self.dig_h4 * 0x10_0000),
        );
        crate::arith::wrap32(
            crate::arith::wrap32(shifted - crate::arith::wrap32(self.dig_h5 * v)) + 16_384,
        ) / 32_768
    }

    /// Second factor of the humidity formula: the gain at the sample's temperature.
    pub open spec fn humidity_gain(self) -> int {
        let v = self.t_fine - 76_800;
        let product = crate::arith::wrap32((v * self.dig_h6 / 1024) * (v * self.dig_h3 / 2048
            + 32_768));
        crate::arith::wrap32(
            crate::arith::wrap32((product / 1024 + 2_097_152) * self.dig_h2) + 8192,
        ) / 16_384
    }

    /// What is taken off a humidity of `value` for the sensor's curvature.
    pub open spec fn humidity_curve(self, value: int) -> int {
        let e = value / 32_768;
        crate::arith::wrap32((crate::arith::wrap32(e * e) / 128) * self.dig_h1) / 16
    }

    /// Humidity in steps of 1/1024 %RH of the raw sample `adc_h`.
    pub open spec fn humidity(self, adc_h: int) -> int {
        let value = crate::arith::wrap32(self.humidity_sample(adc_h) * self.humidity_gain());
        crate::arith::clamped(
            crate::arith::wrap32(value - self.humidity_curve(value)),
            0,
            419_430_400,
        ) / 4096
    }

    /// Decodes the two register blocks that hold the trimming values.
    pub fn parse(buf1: &[u8; 26], buf2: &[u8; 7]) -> (r: Calibration)
        ensures
            r == parsed(buf1@, buf2@),
            r.wf(),
            -2048 <= r.dig_h4 < 2048,
            -2048 <= r.dig_h5 < 2048,
    {
        Calibration {
            dig_t1: u16_from_le(buf1[0], buf1[1]),
            dig_t2: i16_from_le(buf1[2], buf1[3]),
            dig_t3: i16_from_le(buf1[4], buf1[5]),
            dig_p1: u16_from_le(buf1[6], buf1[7]),
            dig_p2: i16_from_le(buf1[8], buf1[9]),
            dig_p3: i16_from_le(buf1[10], buf1[11]),
            dig_p4: i16_from_le(buf1[12], buf1[13]),
            dig_p5: i16_from_le(buf1[14], buf1[15]),
            dig_p6: i16_from_le(buf1[16], buf1[17]),
            dig_p7: i16_from_le(buf1[18], buf1[19]),
            dig_p8: i16_from_le(buf1[20], buf1[21]),
            dig_p9: i16_from_le(buf1[22], buf1[23]),
            dig_h1: buf1[25],
            dig_h2: i16_from_le(buf2[0], buf2[1]),
            dig_h3: buf2[2],
            dig_h4: 16 * (i8_from_byte(buf2[3]) as i16) + (buf2[4] % 16) as i16,
            dig_h5: 16 * (i8_from_byte(buf2[5]) as i16) + (buf2[4] / 16) as i16,
            dig_h6: i8_from_byte(buf2[6]),
            t_fine: 0,
        }
    }

    /// Temperature of a raw sample, in hundredths of a degree. The fine temperature is kept for
    /// the pressure and humidity samples taken with it.
    pub fn compensate_temperature(&mut self, adc_t: i32) -> (r: i32)
        ensures
            *final(self) == (Calibration {
                t_fine: old(self).fine_temperature(adc_t as int) as i32,
                ..*old(self)
            }),
            final(self).t_fine == old(self).fine_temperature(adc_t as int),
            final(self).wf(),
            r == Self::temperature(old(self).fine_temperature(adc_t as int)),
    {
        proof {
            lemma2_to64();
        }
        let scaled = asr32(adc_t, 3) - 2 * (self.dig_t1 as i32);
        let linear = asr32(mul32(scaled, self.dig_t2 as i32), 11);
        let offset = asr32(adc_t, 4) - self.dig_t1 as i32;
        let square = asr32(mul32(offset, offset), 12);
        let quadratic = asr32(mul32(square, self.dig_t3 as i32), 14);

        self.t_fine = linear + quadratic;
        asr32(self.t_fine * 5 + 128, 8)
    }

    /// Pressure of a raw sample, in Pa, at the fine temperature of the last temperature sample.
    pub fn compensate_pressure(&self, adc_p: i32) -> (r: u32)
        requires
            self.wf(),
        ensures
            r == self.pressure(adc_p as int),
    {
        proof {
            lemma2_to64();
            lemma2_to64_rest();
            self.lemma_pressure_bounds();
        }
        let d = self.t_fine as i64 - 128_000;
        let offset = d * d * (self.dig_p6 as i64) + d * (self.dig_p5 as i64) * 0x2_0000 + (
        self.dig_p4 as i64) * 0x8_0000_0000;
        let slope = asr64(d * d * (self.dig_p3 as i64), 8) + d * (self.dig_p2 as i64) * 4096;
        let divisor = asr64(mul64(0x8000_0000_0000 + slope, self.dig_p1 as i64), 33);

        if divisor == 0 {
            return 0;
        }
        let rest = (1_048_576 - adc_p as i64) * 0x8000_0000 - offset;
        let dividend = mul64(rest, 3125);
        proof {
            lemma_odd_multiple_is_not_minimum(rest as int);
        }
        let q = div64(dividend, divisor);
        let square = asr64(mul64(mul64(self.dig_p9 as i64, asr64(q, 13)), asr64(q, 13)), 25);
        let linear = asr64(mul64(self.dig_p8 as i64, q), 19);
        let polished = asr64(add64(add64(q, square), linear), 8) + (self.dig_p7 as i64) * 16;
        let pascal = asr64(polished, 8);
        assert((pascal as u32) as int == pascal as int % 0x1_0000_0000) by (bit_vector);
        #[verifier::truncate]
        (pascal as u32)
    }

    /// Humidity of a raw sample, in steps of 1/1024 %RH, at the fine temperature of the last
    /// temperature sample.
    pub fn compensate_humidity(&self, adc_h: i32) -> (r: u32)
        requires
            self.wf(),
        ensures
            r == self.humidity(adc_h as int),
            r <= HUMIDITY_Q1024_MAX,
    {
        proof {
            lemma2_to64();
            self.lemma_humidity_bounds();
        }
        let v = self.t_fine - 76_800;
        let shifted = sub32(mul32(adc_h, 0x4000), mul32(self.dig_h4 as i32, 0x10_0000));
        let sample = asr32(add32(sub32(shifted, mul32(self.dig_h5 as i32, v)), 16_384), 15);
        let product = mul32(
            asr32(v * (self.dig_h6 as i32), 10),
            asr32(v * (self.dig_h3 as i32), 11) + 32_768,
        );
        let gain = asr32(
            add32(mul32(asr32(product, 10) + 2_097_152, self.dig_h2 as i32), 8192),
            14,
        );
        let value = mul32(sample, gain);
        let e = asr32(value, 15);
        let curve = asr32(mul32(asr32(mul32(e, e), 7), self.dig_h1 as i32), 4);
        let corrected = sub32(value, curve);
        let kept: u32 = if corrected < 0 {
            0
        } else if corrected > 419_430_400 {
            419_430_400
        } else {
            corrected as u32
        };
        kept / 4096
    }

    proof fn lemma_pressure_bounds(self)
        requires
            self.wf(),
        ensures
            ({
                let d = self.t_fine - 128_000;
                &&& 0 <= d * d <= 1_800_000_000_000
                &&& -0x1000_0000_0000_0000 < d * d * self.dig_p3 < 0x1000_0000_0000_0000
                &&& -60_000_000_000 < d * self.dig_p5 < 60_000_000_000
                &&& -60_000_000_000 < d * self.dig_p2 < 60_000_000_000
                &&& -60_000_000_000_000_000 < d * d * self.dig_p6 < 60_000_000_000_000_000
            }),
    {
        let d: int = self.t_fine - 128_000;
        assert(0 <= d * d <= 1_800_000_000_000) by (nonlinear_arith)
            requires
                -1_307_648 <= d <= 1_307_648,
        ;
        bounded_product(d * d, self.dig_p6 as int, 1_800_000_000_000);
        bounded_product(d * d, self.dig_p3 as int, 1_800_000_000_000);
        bounded_product(d, self.dig_p5 as int, 1_307_648);
        bounded_product(d, self.dig_p2 as int, 1_307_648);
    }

    proof fn lemma_humidity_bounds(self)
        requires
            self.wf(),
        ensures
            ({
                let v = self.t_fine - 76_800;
                &&& -200_000_000 < v * self.dig_h6 < 200_000_000
                &&& -400_000_000 < v * self.dig_h3 < 400_000_000
            }),
    {
        let v: int = self.t_fine - 76_800;
        let h6: int = self.dig_h6 as int;
        let h3: int = self.dig_h3 as int;
        assert(-200_000_000 < v * h6 < 200_000_000 && -400_000_000 < v * h3 < 400_000_000)
            by (nonlinear_arith)
            requires
                -1_260_000 <= v <= 1_260_000,
                -128 <= h6 <= 127,
                0 <= h3 <= 255,
        ;
    }
}

proof fn bounded_product(x: int, k: int, bound: int)
    requires
        -bound <= x <= bound,
        -0x8000 <= k <= 0x7fff,
    ensures
        -0x8000 * bound <= x * k <= 0x8000 * bound,
{
    assert(-0x8000 * bound <= x * k <= 0x8000 * bound) by (nonlinear_arith)
        requires
            -bound <= x <= bound,
            -0x8000 <= k <= 0x7fff,
    ;
}

/// A 64-bit register that receives an odd multiple of a number well inside its range never holds
/// the smallest 64-bit number.
proof fn lemma_odd_multiple_is_not_minimum(x: int)
    requires
        -0x6000_0000_0000_0000 < x < 0x6000_0000_0000_0000,
    ensures
        crate::arith::wrap64(x * 3125) != i64::MIN,
{
    if crate::arith::wrap64(x * 3125) == i64::MIN {
        // 3125 * x is an odd multiple of 2^63. Modulo 2^63 the factor 3125 has an inverse, so x is
        // a multiple of 2^63 too, and not zero.
        let k = (x * 3125 + 0x8000_0000_0000_0000) / 0x1_0000_0000_0000_0000;
        assert(x * 3125 == 0x8000_0000_0000_0000 * (2 * k - 1));
        let m = 6723469279985657373int * (2 * k - 1) - 2278int * x;
        assert(x == 0x8000_0000_0000_0000 * m);
        assert(m == 0);
    }
}

/// Where no register overflows, the fine temperature is the vendor's formula in plain integers.
pub proof fn law_temperature_is_exact_without_overflow(calibration: Calibration, adc_t: int)
    requires
        ({
            let linear = (adc_t / 8 - 2 * calibration.dig_t1) * calibration.dig_t2;
            let offset = adc_t / 16 - calibration.dig_t1;
            let quadratic = offset * offset / 4096 * calibration.dig_t3;
            &&& i32::MIN <= linear <= i32::MAX
            &&& offset * offset <= i32::MAX
            &&& i32::MIN <= quadratic <= i32::MAX
        }),
    ensures
        calibration.fine_temperature(adc_t) == (adc_t / 8 - 2 * calibration.dig_t1)
            * calibration.dig_t2 / 2048 + ((adc_t / 16 - calibration.dig_t1) * (adc_t / 16
            - calibration.dig_t1) / 4096) * calibration.dig_t3 / 16384,
{
    let offset = adc_t / 16 - calibration.dig_t1;
    assert(offset * offset >= 0) by (nonlinear_arith);
}

/// The humidity never leaves the range from nothing to 100 percent, whatever the calibration and
/// the raw sample.
pub proof fn law_humidity_is_a_percentage(calibration: Calibration, adc_h: int)
    ensures
        0 <= calibration.humidity(adc_h) <= HUMIDITY_Q1024_MAX,
{
}

/// The number `x` as the 16 bits that stand for it in two's complement.
pub open spec fn bits16(x: int) -> int {
    if x < 0 {
        x + 0x1_0000
    } else {
        x
    }
}

/// Two bytes of `block` from `at` on hold the 16 bits of `x`, low byte first.
pub open spec fn block_holds(block: Seq<u8>, at: int, x: int) -> bool {
    block[at] + 0x100 * block[at + 1] == bits16(x)
}

/// Register blocks that hold some trimming values are decoded to exactly those values. The two
/// 12-bit values share a byte: the low half of it belongs to the first, the high half to the second.
pub proof fn law_trimming_values_are_read_back(
    values: Calibration,
    first: Seq<u8>,
    second: Seq<u8>,
)
    requires
        first.len() == 26,
        second.len() == 7,
        values.t_fine == 0,
        block_holds(first, 0, values.dig_t1 as int),
        block_holds(first, 2, values.dig_t2 as int),
        block_holds(first, 4, values.dig_t3 as int),
        block_holds(first, 6, values.dig_p1 as int),
        block_holds(first, 8, values.dig_p2 as int),
        block_holds(first, 10, values.dig_p3 as int),
        block_holds(first, 12, values.dig_p4 as int),
        block_holds(first, 14, values.dig_p5 as int),
        block_holds(first, 16, values.dig_p6 as int),
        block_holds(first, 18, values.dig_p7 as int),
        block_holds(first, 20, values.dig_p8 as int),
        block_holds(first, 22, values.dig_p9 as int),
        first[25] == values.dig_h1,
        block_holds(second, 0, values.dig_h2 as int),
        second[2] == values.dig_h3,
        -2048 <= values.dig_h4 < 2048,
        -2048 <= values.dig_h5 < 2048,
        16 * second[3] + second[4] % 16 == values.dig_h4 + if values.dig_h4 < 0 {
            4096int
        } else {
            0
        },
        16 * second[5] + second[4] / 16 == values.dig_h5 + if values.dig_h5 < 0 {
            4096int
        } else {
            0
        },
        second[6] == values.dig_h6 + if values.dig_h6 < 0 {
            256int
        } else {
            0
        },
    ensures
        parsed(first, second) == values,
{
}

/// The fine temperature of any raw sample, by what the 32-bit registers of the vendor's formula hold:
/// `linear`, `square` and `quadratic` its two terms and the square of the offset.
pub proof fn law_fine_temperature_follows_the_registers(
    calibration: Calibration,
    adc_t: int,
    linear: int,
    square: int,
    quadratic: int,
)
    requires
        crate::arith::holds32(
            linear,
            (adc_t / 8 - 2 * calibration.dig_t1) * calibration.dig_t2,
        ),
        crate::arith::holds32(
            square,
            (adc_t / 16 - calibration.dig_t1) * (adc_t / 16 - calibration.dig_t1),
        ),
        crate::arith::holds32(quadratic, square / 4096 * calibration.dig_t3),
    ensures
        calibration.fine_temperature(adc_t) == linear / 2048 + quadratic / 16384,
{
    crate::arith::law_register32_holds_one_number(
        (adc_t / 8 - 2 * calibration.dig_t1) * calibration.dig_t2,
        linear,
    );
    crate::arith::law_register32_holds_one_number(
        (adc_t / 16 - calibration.dig_t1) * (adc_t / 16 - calibration.dig_t1),
        square,
    );
    crate::arith::law_register32_holds_one_number(square / 4096 * calibration.dig_t3, quadratic);
}

/// 5120 steps of the fine temperature are one degree: a temperature in hundredths is the nearest to
/// its fine temperature, the upper one where two are as near.
pub proof fn law_temperature_is_the_nearest_hundredth(t_fine: int)
    ensures
        -128 <= 5 * t_fine - 256 * Calibration::temperature(t_fine) < 128,
{
}

/// The pressure of any raw sample, by what the 64-bit registers of the vendor's formula hold. It is
/// zero where the divisor is. Otherwise `q` is the quotient rounded toward zero, `square` and
/// `linear` are its two corrections, and the result is the low 32 bits.
pub proof fn law_pressure_follows_the_registers(
    calibration: Calibration,
    adc_p: int,
    scale: int,
    dividend: int,
    q: int,
    rest: int,
    square: int,
    linear: int,
    sum: int,
)
    requires
        ({
            let d = calibration.t_fine - 128_000;
            let slope = d * d * calibration.dig_p3 / 256 + d * calibration.dig_p2 * 4096;
            crate::arith::holds64(scale, (0x8000_0000_0000 + slope) * calibration.dig_p1)
        }),
        ({
            let d = calibration.t_fine - 128_000;
            let offset = d * d * calibration.dig_p6 + d * calibration.dig_p5 * 131_072
                + calibration.dig_p4 * 34_359_738_368;
            crate::arith::holds64(
                dividend,
                ((1_048_576 - adc_p) * 2_147_483_648 - offset) * 3125,
            )
        }),
        ({
            let divisor = scale / 8_589_934_592;
            divisor != 0 ==> {
                &&& dividend == divisor * q + rest
                &&& divisor > 0 ==> -divisor < rest < divisor
                &&& divisor < 0 ==> divisor < rest < -divisor
                &&& dividend >= 0 ==> rest >= 0
                &&& dividend <= 0 ==> rest <= 0
            }
        }),
        crate::arith::holds64(square, calibration.dig_p9 * (q / 8192) * (q / 8192)),
        crate::arith::holds64(linear, calibration.dig_p8 * q),
        crate::arith::holds64(sum, q + square / 33_554_432 + linear / 524_288),
    ensures
        ({
            let pressure = calibration.pressure(adc_p);
            if scale / 8_589_934_592 == 0 {
                pressure == 0
            } else {
                &&& 0 <= pressure < 0x1_0000_0000
                &&& (pressure - (sum / 256 + calibration.dig_p7 * 16) / 256) % 0x1_0000_0000 == 0
            }
        }),
{
    let d = calibration.t_fine - 128_000;
    let offset = d * d * calibration.dig_p6 + d * calibration.dig_p5 * 131_072 + calibration.dig_p4
        * 34_359_738_368;
    let divisor = scale / 8_589_934_592;
    lemma_pressure_divisor(calibration, scale);
    if divisor != 0 {
        assert(crate::arith::trunc_div(dividend, divisor) == q) by {
            crate::arith::law_quotient_is_rounded_toward_zero(dividend, divisor, q, rest);
        }
        lemma_pressure_dividend(calibration, adc_p, dividend, offset);
        lemma_pressure_polished(calibration, q, square, linear, sum);
        lemma_pressure_of_quotient(calibration, adc_p, dividend, divisor, q);
    }
}

proof fn lemma_pressure_dividend(calibration: Calibration, adc_p: int, dividend: int, offset: int)
    requires
        ({
            let d = calibration.t_fine - 128_000;
            offset == d * d * calibration.dig_p6 + d * calibration.dig_p5 * 131_072
                + calibration.dig_p4 * 34_359_738_368
        }),
        crate::arith::holds64(dividend, ((1_048_576 - adc_p) * 2_147_483_648 - offset) * 3125),
    ensures
        crate::arith::wrap64(
            ((1_048_576 - adc_p) * 0x8000_0000 - calibration.pressure_offset()) * 3125,
        ) == dividend,
{
    assert(calibration.pressure_offset() == offset);
    crate::arith::lemma_held64(dividend, ((1_048_576 - adc_p) * 2_147_483_648 - offset) * 3125);
}

proof fn lemma_pressure_divisor(calibration: Calibration, scale: int)
    requires
        ({
            let d = calibration.t_fine - 128_000;
            let slope = d * d * calibration.dig_p3 / 256 + d * calibration.dig_p2 * 4096;
            crate::arith::holds64(scale, (0x8000_0000_0000 + slope) * calibration.dig_p1)
        }),
    ensures
        calibration.pressure_divisor() == scale / 8_589_934_592,
{
    let d = calibration.t_fine - 128_000;
    let slope = d * d * calibration.dig_p3 / 256 + d * calibration.dig_p2 * 4096;
    crate::arith::lemma_held64(scale, (0x8000_0000_0000 + slope) * calibration.dig_p1);
}

proof fn lemma_pressure_polished(
    calibration: Calibration,
    q: int,
    square: int,
    linear: int,
    sum: int,
)
    requires
        crate::arith::holds64(square, calibration.dig_p9 * (q / 8192) * (q / 8192)),
        crate::arith::holds64(linear, calibration.dig_p8 * q),
        crate::arith::holds64(sum, q + square / 33_554_432 + linear / 524_288),
    ensures
        calibration.pressure_polished(q) == sum / 256 + calibration.dig_p7 * 16,
{
    let m = q / 8192;
    crate::arith::lemma_held64(square, calibration.dig_p9 * m * m);
    crate::arith::lemma_wrapped_factor64(calibration.dig_p9 * m, m);
    crate::arith::lemma_held64(linear, calibration.dig_p8 * q);
    crate::arith::lemma_held64(sum, q + square / 33_554_432 + linear / 524_288);
    crate::arith::lemma_wrapped_summand64(q + square / 33_554_432, linear / 524_288);
}

proof fn lemma_pressure_of_quotient(
    calibration: Calibration,
    adc_p: int,
    dividend: int,
    divisor: int,
    q: int,
)
    requires
        calibration.pressure_divisor() == divisor,
        divisor != 0,
        crate::arith::wrap64(
            ((1_048_576 - adc_p) * 0x8000_0000 - calibration.pressure_offset()) * 3125,
        ) == dividend,
        crate::arith::trunc_div(dividend, divisor) == q,
    ensures
        0 <= calibration.pressure(adc_p) < 0x1_0000_0000,
        (calibration.pressure(adc_p) - calibration.pressure_polished(q) / 256) % 0x1_0000_0000 == 0,
{
}

/// Where no register overflows and the divisor is not zero, the pressure is the vendor's formula in
/// plain integers, at every fine temperature. `q` is its quotient, rounded toward zero, and `rest`
/// what remains.
pub proof fn law_pressure_is_exact_without_overflow(
    calibration: Calibration,
    adc_p: int,
    q: int,
    rest: int,
)
    requires
        ({
            let d = calibration.t_fine - 128_000;
            let slope = d * d * calibration.dig_p3 / 256 + d * calibration.dig_p2 * 4096;
            let offset = d * d * calibration.dig_p6 + d * calibration.dig_p5 * 131_072
                + calibration.dig_p4 * 34_359_738_368;
            let scale = (140_737_488_355_328 + slope) * calibration.dig_p1;
            let divisor = scale / 8_589_934_592;
            let dividend = ((1_048_576 - adc_p) * 2_147_483_648 - offset) * 3125;
            let square = calibration.dig_p9 * (q / 8192) * (q / 8192);
            let linear = calibration.dig_p8 * q;
            let sum = q + square / 33_554_432 + linear / 524_288;
            &&& i64::MIN <= scale <= i64::MAX
            &&& i64::MIN <= dividend <= i64::MAX
            &&& i64::MIN <= square <= i64::MAX
            &&& i64::MIN <= linear <= i64::MAX
            &&& i64::MIN <= sum <= i64::MAX
            &&& divisor != 0
            &&& dividend == divisor * q + rest
            &&& divisor > 0 ==> -divisor < rest < divisor
            &&& divisor < 0 ==> divisor < rest < -divisor
            &&& dividend >= 0 ==> rest >= 0
            &&& dividend <= 0 ==> rest <= 0
            &&& 0 <= (sum / 256 + calibration.dig_p7 * 16) / 256 <= u32::MAX
        }),
    ensures
        calibration.pressure(adc_p) == ((q + calibration.dig_p9 * (q / 8192) * (q / 8192)
            / 33_554_432 + calibration.dig_p8 * q / 524_288) / 256 + calibration.dig_p7 * 16) / 256,
{
    let d = calibration.t_fine - 128_000;
    let slope = d * d * calibration.dig_p3 / 256 + d * calibration.dig_p2 * 4096;
    let offset = d * d * calibration.dig_p6 + d * calibration.dig_p5 * 131_072 + calibration.dig_p4
        * 34_359_738_368;
    let square = calibration.dig_p9 * (q / 8192) * (q / 8192);
    let linear = calibration.dig_p8 * q;
    law_pressure_follows_the_registers(
        calibration,
        adc_p,
        (140_737_488_355_328 + slope) * calibration.dig_p1,
        ((1_048_576 - adc_p) * 2_147_483_648 - offset) * 3125,
        q,
        rest,
        square,
        linear,
        q + square / 33_554_432 + linear / 524_288,
    );
}

/// The humidity of any raw sample, by what the 32-bit registers of the vendor's formula hold:
/// `sample` the raw sample less its offset, `bend` and `gain` the gain at the sample's temperature,
/// `value` their product, `square`, `curve` and `corrected` the correction for the curvature. What
/// is below nothing or above 100 percent is cut off.
pub proof fn law_humidity_follows_the_registers(
    calibration: Calibration,
    adc_h: int,
    sample: int,
    bend: int,
    gain: int,
    value: int,
    square: int,
    curve: int,
    corrected: int,
)
    requires
        ({
            let v = calibration.t_fine - 76_800;
            &&& crate::arith::holds32(
                sample,
                adc_h * 16_384 - calibration.dig_h4 * 1_048_576 - calibration.dig_h5 * v + 16_384,
            )
            &&& crate::arith::holds32(
                bend,
                (v * calibration.dig_h6 / 1024) * (v * calibration.dig_h3 / 2048 + 32_768),
            )
        }),
        crate::arith::holds32(gain, (bend / 1024 + 2_097_152) * calibration.dig_h2 + 8192),
        crate::arith::holds32(value, (sample / 32_768) * (gain / 16_384)),
        crate::arith::holds32(square, (value / 32_768) * (value / 32_768)),
        crate::arith::holds32(curve, (square / 128) * calibration.dig_h1),
        crate::arith::holds32(corrected, value - curve / 16),
    ensures
        corrected <= 0 ==> calibration.humidity(adc_h) == 0,
        0 <= corrected <= 419_430_400 ==> calibration.humidity(adc_h) == corrected / 4096,
        corrected >= 419_430_400 ==> calibration.humidity(adc_h) == 102_400,
{
    lemma_humidity_sample(calibration, adc_h, sample);
    lemma_humidity_gain(calibration, bend, gain);
    crate::arith::lemma_held32(value, (sample / 32_768) * (gain / 16_384));
    lemma_humidity_curve(calibration, value, square, curve);
    crate::arith::lemma_held32(corrected, value - curve / 16);
}

proof fn lemma_humidity_sample(calibration: Calibration, adc_h: int, sample: int)
    requires
        crate::arith::holds32(
            sample,
            adc_h * 16_384 - calibration.dig_h4 * 1_048_576 - calibration.dig_h5 * (
            calibration.t_fine - 76_800) + 16_384,
        ),
    ensures
        calibration.humidity_sample(adc_h) == sample / 32_768,
{
    let a = adc_h * 16_384;
    let b = calibration.dig_h4 * 1_048_576;
    let c = calibration.dig_h5 * (calibration.t_fine - 76_800);
    crate::arith::lemma_held32(sample, a - b - c + 16_384);
    crate::arith::lemma_wrapped_difference32(a, b);
    crate::arith::lemma_wrapped_difference32(a - b, c);
    crate::arith::lemma_wrapped_difference32(a - b - c, -16_384);
}

proof fn lemma_humidity_gain(calibration: Calibration, bend: int, gain: int)
    requires
        crate::arith::holds32(
            bend,
            ((calibration.t_fine - 76_800) * calibration.dig_h6 / 1024) * ((calibration.t_fine
                - 76_800) * calibration.dig_h3 / 2048 + 32_768),
        ),
        crate::arith::holds32(gain, (bend / 1024 + 2_097_152) * calibration.dig_h2 + 8192),
    ensures
        calibration.humidity_gain() == gain / 16_384,
{
    let v = calibration.t_fine - 76_800;
    crate::arith::lemma_held32(
        bend,
        (v * calibration.dig_h6 / 1024) * (v * calibration.dig_h3 / 2048 + 32_768),
    );
    let product = (bend / 1024 + 2_097_152) * calibration.dig_h2;
    crate::arith::lemma_held32(gain, product + 8192);
    crate::arith::lemma_wrapped_difference32(product, -8192);
}

proof fn lemma_humidity_curve(calibration: Calibration, value: int, square: int, curve: int)
    requires
        crate::arith::holds32(square, (value / 32_768) * (value / 32_768)),
        crate::arith::holds32(curve, (square / 128) * calibration.dig_h1),
    ensures
        calibration.humidity_curve(value) == curve / 16,
{
    crate::arith::lemma_held32(square, (value / 32_768) * (value / 32_768));
    crate::arith::lemma_held32(curve, (square / 128) * calibration.dig_h1);
}

/// Where no register overflows, the humidity is the vendor's formula in plain integers, cut to the
/// range from nothing to 100 percent.
pub proof fn law_humidity_is_exact_without_overflow(calibration: Calibration, adc_h: int)
    requires
        ({
            let v = calibration.t_fine - 76_800;
            let sample = adc_h * 16_384 - calibration.dig_h4 * 1_048_576 - calibration.dig_h5 * v
                + 16_384;
            let bend = (v * calibration.dig_h6 / 1024) * (v * calibration.dig_h3 / 2048 + 32_768);
            let gain = (bend / 1024 + 2_097_152) * calibration.dig_h2 + 8192;
            let value = (sample / 32_768) * (gain / 16_384);
            let square = (value / 32_768) * (value / 32_768);
            let curve = (square / 128) * calibration.dig_h1;
            &&& i32::MIN <= sample <= i32::MAX
            &&& i32::MIN <= bend <= i32::MAX
            &&& i32::MIN <= gain <= i32::MAX
            &&& i32::MIN <= value <= i32::MAX
            &&& i32::MIN <= square <= i32::MAX
            &&& i32::MIN <= curve <= i32::MAX
            &&& i32::MIN <= value - curve / 16 <= i32::MAX
        }),
    ensures
        ({
            let v = calibration.t_fine - 76_800;
            let sample = adc_h * 16_384 - calibration.dig_h4 * 1_048_576 - calibration.dig_h5 * v
                + 16_384;
            let bend = (v * calibration.dig_h6 / 1024) * (v * calibration.dig_h3 / 2048 + 32_768);
            let gain = (bend / 1024 + 2_097_152) * calibration.dig_h2 + 8192;
            let value = (sample / 32_768) * (gain / 16_384);
            let curve = (value / 32_768) * (value / 32_768) / 128 * calibration.dig_h1 / 16;
            calibration.humidity(adc_h) == if value <= curve {
                0
            } else if value - curve >= 419_430_400 {
                102_400
            } else {
                (value - curve) / 4096
            }
        }),
{
    let v = calibration.t_fine - 76_800;
    let sample = adc_h * 16_384 - calibration.dig_h4 * 1_048_576 - calibration.dig_h5 * v + 16_384;
    let bend = (v * calibration.dig_h6 / 1024) * (v * calibration.dig_h3 / 2048 + 32_768);
    let gain = (bend / 1024 + 2_097_152) * calibration.dig_h2 + 8192;
    let value = (sample / 32_768) * (gain / 16_384);
    let square = (value / 32_768) * (value / 32_768);
    let curve = (square / 128) * calibration.dig_h1;
    law_humidity_follows_the_registers(
        calibration,
        adc_h,
        sample,
        bend,
        gain,
        value,
        square,
        curve,
        value - curve / 16,
    );
}

} // verus!
