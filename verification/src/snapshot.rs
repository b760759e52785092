//! The values of one measurement cycle, in the units that the probe publishes.
use vstd::prelude::*;

use crate::bme280::Reading;
use crate::zts3000::Zts3000Reading;

verus! {

/// Air and soil values in hundredths of a degree, pascal, and hundredths of a percent.
#[derive(Clone, Copy, Debug, PartialEq, Eq, Structural)]
pub struct SensorSnapshot {
    pub air_temperature_centi: i16,
    pub air_pressure_pa: u32,
    pub air_humidity_centi_pct: u16,
    pub soil_temperature_centi: i16,
    pub soil_humidity_centi_pct: u16,
}

impl Default for SensorSnapshot {
    /// Nothing was measured yet.
    fn default() -> (r: SensorSnapshot)
        ensures
            r == SensorSnapshot::nothing(),
    {
        SensorSnapshot {
            air_temperature_centi: 0,
            air_pressure_pa: 0,
            air_humidity_centi_pct: 0,
            soil_temperature_centi: 0,
            soil_humidity_centi_pct: 0,
        }
    }
}

/// Relative humidity in hundredths of a percent, rounded, of one in 1024ths of a percent.
pub open spec fn humidity_centi(humidity_q1024: int) -> int {
    (humidity_q1024 * 100 + 512) / 1024
}

impl SensorSnapshot {
    pub open spec fn nothing() -> SensorSnapshot {
        SensorSnapshot {
            air_temperature_centi: 0,
            air_pressure_pa: 0,
            air_humidity_centi_pct: 0,
            soil_temperature_centi: 0,
            soil_humidity_centi_pct: 0,
        }
    }

    /// The snapshot of the two phases. What was not measured is zero, and what does not fit its
    /// field is cut to the nearest value that does.
    pub open spec fn of(air: Option<Reading>, soil: Option<Zts3000Reading>) -> SensorSnapshot {
        let none = SensorSnapshot::nothing();
        let with_air = match air {
            Some(reading) => SensorSnapshot {
                air_temperature_centi: crate::arith::clamped(
                    reading.temperature_centidegrees as int,
                    -0x8000,
                    0x7fff,
                ) as i16,
                air_pressure_pa: reading.pressure_pa,
                air_humidity_centi_pct: if reading.is_bmp280 {
                    0
                } else {
                    crate::arith::min_of(
                        humidity_centi(reading.humidity_q1024 as int),
                        0xffff,
                    ) as u16
                },
                ..none
            },
            None => none,
        };
        match soil {
            Some(reading) => SensorSnapshot {
                soil_temperature_centi: crate::arith::clamped(
                    reading.temperature_tenths * 10,
                    -0x8000,
                    0x7fff,
                ) as i16,
                soil_humidity_centi_pct: crate::arith::min_of(
                    reading.humidity_tenths * 10,
                    0xffff,
                ) as u16,
                ..with_air
            },
            None => with_air,
        }
    }

    /// Takes over what the two phases measured.
    pub fn from_phase_results(air: Option<Reading>, soil: Option<Zts3000Reading>) -> (r:
        SensorSnapshot)
        ensures
            r == SensorSnapshot::of(air, soil),
    {
        let (air_temperature_centi, air_pressure_pa, air_humidity_centi_pct) = match air {
            Some(reading) => {
                let temperature = clamp_to_i16(reading.temperature_centidegrees);
                let humidity: u16 = if reading.is_bmp280 {
                    0
                } else {
                    min_u16((reading.humidity_q1024 as u64 * 100 + 512) / 1024)
                };
                (temperature, reading.pressure_pa, humidity)
            },
            None => (0i16, 0u32, 0u16),
        };
        let (soil_temperature_centi, soil_humidity_centi_pct) = match soil {
            Some(reading) => (
                clamp_to_i16(reading.temperature_tenths as i32 * 10),
                min_u16(reading.humidity_tenths as u64 * 10),
            ),
            None => (0i16, 0u16),
        };
        SensorSnapshot {
            air_temperature_centi,
            air_pressure_pa,
            air_humidity_centi_pct,
            soil_temperature_centi,
            soil_humidity_centi_pct,
        }
    }
}

fn clamp_to_i16(x: i32) -> (r: i16)
    ensures
        r == crate::arith::clamped(x as int, -0x8000, 0x7fff),
{
    if x < -0x8000 {
        -0x8000
    } else if x > 0x7fff {
        0x7fff
    } else {
        x as i16
    }
}

fn min_u16(x: u64) -> (r: u16)
    ensures
        r == crate::arith::min_of(x as int, 0xffff),
{
    if x <= 0xffff {
        x as u16
    } else {
        0xffff
    }
}

/// The humidity that the air sensor can report, at most 100 percent, fits its field, and is at most
/// 100 percent there too.
pub proof fn law_humidity_stays_within_percent(air: Reading, soil: Option<Zts3000Reading>)
    requires
        air.humidity_q1024 <= crate::calibration::HUMIDITY_Q1024_MAX,
    ensures
        SensorSnapshot::of(Some(air), soil).air_humidity_centi_pct <= 10_000,
{
}

/// Soil values in the range of the sensor are published exactly: a tenth is ten hundredths.
pub proof fn law_soil_values_are_exact(air: Option<Reading>, soil: Zts3000Reading)
    requires
        -3_276 <= soil.temperature_tenths <= 3_276,
        soil.humidity_tenths <= 6_553,
    ensures
        SensorSnapshot::of(air, Some(soil)).soil_temperature_centi == soil.temperature_tenths * 10,
        SensorSnapshot::of(air, Some(soil)).soil_humidity_centi_pct == soil.humidity_tenths * 10,
{
}

/// An air temperature within the range of its field is published as it is, sign included, and one
/// outside as the end of the range that it is beyond. The pressure is always published as it is.
pub proof fn law_air_values_are_published_unchanged(air: Reading, soil: Option<Zts3000Reading>)
    ensures
        ({
            let published = SensorSnapshot::of(Some(air), soil);
            let t = air.temperature_centidegrees;
            &&& -32_768 <= t <= 32_767 ==> published.air_temperature_centi == t
            &&& t < -32_768 ==> published.air_temperature_centi == -32_768
            &&& t > 32_767 ==> published.air_temperature_centi == 32_767
            &&& published.air_pressure_pa == air.pressure_pa
        }),
{
}

/// The humidity of the air is published as the nearest hundredth of a percent, the upper one where
/// two are as near, or as the largest value of its field where it is beyond that. A BMP280 has none.
pub proof fn law_air_humidity_is_the_nearest_hundredth(air: Reading, soil: Option<Zts3000Reading>)
    ensures
        ({
            let c = SensorSnapshot::of(Some(air), soil).air_humidity_centi_pct;
            let h = air.humidity_q1024;
            &&& air.is_bmp280 ==> c == 0
            &&& !air.is_bmp280 && 100 * h < 65_536 * 1024 - 512 ==> -512 <= 100 * h - 1024 * c < 512
            &&& !air.is_bmp280 && 100 * h >= 65_536 * 1024 - 512 ==> c == 65_535
        }),
{
}

/// Soil values beyond the range of their fields are published as the end that they are beyond, all
/// others as ten times what was measured.
pub proof fn law_soil_values_are_ten_times_their_tenths(
    air: Option<Reading>,
    soil: Zts3000Reading,
)
    ensures
        ({
            let published = SensorSnapshot::of(air, Some(soil));
            let t = soil.temperature_tenths * 10;
            let h = soil.humidity_tenths * 10;
            &&& -32_768 <= t <= 32_767 ==> published.soil_temperature_centi == t
            &&& t < -32_768 ==> published.soil_temperature_centi == -32_768
            &&& t > 32_767 ==> published.soil_temperature_centi == 32_767
            &&& h <= 65_535 ==> published.soil_humidity_centi_pct == h
            &&& h > 65_535 ==> published.soil_humidity_centi_pct == 65_535
        }),
{
}

/// What was not measured is published as zero, and neither sensor has a part in what is published of
/// the other.
pub proof fn law_sensors_are_published_apart(
    air: Option<Reading>,
    other_air: Option<Reading>,
    soil: Option<Zts3000Reading>,
    other_soil: Option<Zts3000Reading>,
)
    ensures
        ({
            let a = SensorSnapshot::of(air, soil);
            let b = SensorSnapshot::of(air, other_soil);
            &&& a.air_temperature_centi == b.air_temperature_centi
            &&& a.air_pressure_pa == b.air_pressure_pa
            &&& a.air_humidity_centi_pct == b.air_humidity_centi_pct
            &&& air is None ==> a.air_temperature_centi == 0 && a.air_pressure_pa == 0
                && a.air_humidity_centi_pct == 0
        }),
        ({
            let a = SensorSnapshot::of(air, soil);
            let b = SensorSnapshot::of(other_air, soil);
            &&& a.soil_temperature_centi == b.soil_temperature_centi
            &&& a.soil_humidity_centi_pct == b.soil_humidity_centi_pct
            &&& soil is None ==> a.soil_temperature_centi == 0 && a.soil_humidity_centi_pct == 0
        }),
        SensorSnapshot::nothing() == SensorSnapshot::of(None, None),
{
}

} // verus!
