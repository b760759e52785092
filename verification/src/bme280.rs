//! The BME280/BMP280 air sensor: start-up, forced samples, averaging and the measurement phase.
use vstd::prelude::*;
use vstd::string::*;

use crate::arith::lemma_mean_in_range;
use crate::calibration::Calibration;
use crate::clock::Instant;
use crate::config::{BME280_POWER_SETTLE_MS, SENSOR_ACTIVE_PHASE_MS, SENSOR_SAMPLE_INTERVAL_MS};
use crate::i2c::{I2cAction, I2cError, I2cEvent};
use crate::text::{push_decimal, push_two_digits, push_upper_hex};

verus! {

pub const REG_CHIP_ID: u8 = 0xd0;

pub const REG_RESET: u8 = 0xe0;

pub const REG_CTRL_HUM: u8 = 0xf2;

pub const REG_CTRL_MEAS: u8 = 0xf4;

pub const REG_DATA: u8 = 0xf7;

pub const REG_CALIB1: u8 = 0x88;

pub const REG_CALIB2: u8 = 0xe1;

pub const CHIP_ID_BME280: u8 = 0x60;

/// Chip identifiers of the BMP280, which has no humidity sensor.
pub const CHIP_IDS_BMP280: [u8; 3] = [0x58, 0x56, 0x57];

pub const SOFT_RESET: u8 = 0xb6;

pub const CTRL_HUM_OSRS_X1: u8 = 0x01;

pub const CTRL_MEAS_FORCED_X1: u8 = 0x25;

/// Time that the sensor takes to restart, in milliseconds.
pub const RESET_WAIT_MS: u64 = 3;

/// Time that a forced sample takes, in milliseconds.
pub const SAMPLE_WAIT_MS: u64 = 10;

pub const BME280_ADDR_PRIMARY: u8 = 0x76;

pub const BME280_ADDR_SECONDARY: u8 = 0x77;

/// The addresses at which the sensor may answer, in the order in which they are tried.
pub const BME280_ADDRESSES: [u8; 2] = [0x76, 0x77];

/// One air sample. A BMP280 reports no humidity.
#[derive(Clone, Copy, Debug, PartialEq, Eq, Structural)]
pub struct Reading {
    pub temperature_centidegrees: i32,
    pub pressure_pa: u32,
    pub humidity_q1024: u32,
    pub is_bmp280: bool,
}

/// Why the sensor could not be used.
#[derive(Clone, Copy, Debug, PartialEq, Eq, Structural)]
pub enum Error {
    I2c(I2cError),
    Missing,
    UnexpectedChipId(u8),
}

impl Error {
    /// How the log shows the error.
    pub open spec fn shown(self) -> Seq<char> {
        match self {
            Error::I2c(err) => "I2c("@ + err.shown() + ")"@,
            Error::Missing => "Missing"@,
            Error::UnexpectedChipId(id) => "UnexpectedChipId(0x"@ + crate::text::upper_hex(id)
                + ")"@,
        }
    }

    /// How the log shows the error.
    pub fn text(&self) -> (r: String)
        ensures
            r@ == self.shown(),
    {
        match self {
            Error::I2c(err) => {
                let mut text = String::from_str("I2c(");
                text.append(err.name());
                text.append(")");
                text
            },
            Error::Missing => String::from_str("Missing"),
            Error::UnexpectedChipId(id) => {
                let mut text = String::from_str("UnexpectedChipId(0x");
                push_upper_hex(&mut text, *id);
                text.append(")");
                text
            },
        }
    }
}

/// A sensor that was found, reset and configured.
#[derive(Clone, Copy, Debug, PartialEq, Eq)]
pub struct Bme280 {
    pub address: u8,
    pub is_bmp280: bool,
    pub calibration: Calibration,
}

/// Start-up of a sensor: each state but the last asks for one action on the bus.
#[derive(Debug, PartialEq, Eq)]
pub enum Bme280Init {
    ReadChipId { addresses: Vec<u8>, candidate: usize },
    Reset { address: u8, is_bmp280: bool },
    WaitForReset { address: u8, is_bmp280: bool },
    ReadCalibration1 { address: u8, is_bmp280: bool },
    ReadCalibration2 { address: u8, is_bmp280: bool, block1: Vec<u8> },
    EnableHumidity { sensor: Bme280 },
    Finished(Result<Bme280, Error>),
}

/// A forced sample: each state but the last asks for one action on the bus.
#[derive(Clone, Copy, Debug, PartialEq, Eq)]
pub enum Bme280Sample {
    Trigger,
    WaitForSample,
    ReadData,
    Finished(Result<Reading, Error>),
}

/// Chip identifier of a BMP280.
pub open spec fn is_bmp280_id(id: u8) -> bool {
    id == 0x58 || id == 0x56 || id == 0x57
}

/// The 20-bit number in the data registers at offset `at`.
pub open spec fn adc20(raw: Seq<u8>, at: int) -> int {
    raw[at] * 4096 + raw[at + 1] * 16 + raw[at + 2] / 16
}

/// The 16-bit number in the data registers at offset `at`.
pub open spec fn adc16(raw: Seq<u8>, at: int) -> int {
    raw[at] * 256 + raw[at + 1]
}

/// Start-up after the device at `address` answered with the chip identifier `id`.
pub open spec fn identified(address: u8, id: u8) -> Bme280Init {
    if address == 0 {
        Bme280Init::Finished(Err(Error::Missing))
    } else if id == CHIP_ID_BME280 {
        Bme280Init::Reset { address, is_bmp280: false }
    } else if is_bmp280_id(id) {
        Bme280Init::Reset { address, is_bmp280: true }
    } else {
        Bme280Init::Finished(Err(Error::UnexpectedChipId(id)))
    }
}

impl Bme280Init {
    pub open spec fn wf(self) -> bool {
        match self {
            Bme280Init::ReadChipId { addresses, candidate } => candidate < addresses@.len(),
            Bme280Init::ReadCalibration2 { block1, .. } => block1@.len() == 26,
            Bme280Init::EnableHumidity { sensor } => sensor.wf(),
            Bme280Init::Finished(Ok(sensor)) => sensor.wf(),
            _ => true,
        }
    }

    /// The action that this state asks for.
    pub open spec fn asks_for(self) -> Option<I2cAction> {
        match self {
            Bme280Init::ReadChipId { addresses, candidate } => Some(
                I2cAction::Read {
                    address: addresses@[candidate as int],
                    register: REG_CHIP_ID,
                    len: 1,
                },
            ),
            Bme280Init::Reset { address, .. } => Some(
                I2cAction::Write { address, register: REG_RESET, value: SOFT_RESET },
            ),
            Bme280Init::WaitForReset { .. } => Some(I2cAction::Wait { ms: RESET_WAIT_MS }),
            Bme280Init::ReadCalibration1 { address, .. } => Some(
                I2cAction::Read { address, register: REG_CALIB1, len: 26 },
            ),
            Bme280Init::ReadCalibration2 { address, .. } => Some(
                I2cAction::Read { address, register: REG_CALIB2, len: 7 },
            ),
            Bme280Init::EnableHumidity { sensor } => Some(
                I2cAction::Write {
                    address: sensor.address,
                    register: REG_CTRL_HUM,
                    value: CTRL_HUM_OSRS_X1,
                },
            ),
            Bme280Init::Finished(_) => None,
        }
    }

    /// The state after `event`. An event that does not answer the action asked for changes
    /// nothing.
    pub open spec fn after(self, event: I2cEvent) -> Bme280Init {
        match (self, event) {
            (Bme280Init::ReadChipId { addresses, candidate }, I2cEvent::Read(Err(_))) => {
                if candidate + 1 < addresses@.len() {
                    Bme280Init::ReadChipId { addresses, candidate: (candidate + 1) as usize }
                } else {
                    Bme280Init::Finished(Err(Error::Missing))
                }
            },
            (
                Bme280Init::ReadChipId { addresses, candidate },
                I2cEvent::Read(Ok(bytes)),
            ) if bytes@.len() == 1 => identified(addresses@[candidate as int], bytes@[0]),
            (Bme280Init::Reset { address, is_bmp280 }, I2cEvent::Written(Ok(_))) => {
                Bme280Init::WaitForReset { address, is_bmp280 }
            },
            (Bme280Init::WaitForReset { address, is_bmp280 }, I2cEvent::Waited) => {
                Bme280Init::ReadCalibration1 { address, is_bmp280 }
            },
            (
                Bme280Init::ReadCalibration1 { address, is_bmp280 },
                I2cEvent::Read(Ok(bytes)),
            ) if bytes@.len() == 26 => Bme280Init::ReadCalibration2 {
                address,
                is_bmp280,
                block1: bytes,
            },
            (
                Bme280Init::ReadCalibration2 { address, is_bmp280, block1 },
                I2cEvent::Read(Ok(bytes)),
            ) if bytes@.len() == 7 => {
                let sensor = Bme280 {
                    address,
                    is_bmp280,
                    calibration: crate::calibration::parsed(block1@, bytes@),
                };
                if is_bmp280 {
                    Bme280Init::Finished(Ok(sensor))
                } else {
                    Bme280Init::EnableHumidity { sensor }
                }
            },
            (Bme280Init::EnableHumidity { sensor }, I2cEvent::Written(Ok(_))) => {
                Bme280Init::Finished(Ok(sensor))
            },
            (Bme280Init::Reset { .. }, I2cEvent::Written(Err(err))) => Bme280Init::Finished(
                Err(Error::I2c(err)),
            ),
            (Bme280Init::EnableHumidity { .. }, I2cEvent::Written(Err(err))) => {
                Bme280Init::Finished(Err(Error::I2c(err)))
            },
            (Bme280Init::ReadCalibration1 { .. }, I2cEvent::Read(Err(err))) => {
                Bme280Init::Finished(Err(Error::I2c(err)))
            },
            (Bme280Init::ReadCalibration2 { .. }, I2cEvent::Read(Err(err))) => {
                Bme280Init::Finished(Err(Error::I2c(err)))
            },
            _ => self,
        }
    }

    /// The action on the bus that start-up needs next; none once it is finished.
    pub fn action(&self) -> (r: Option<I2cAction>)
        requires
            self.wf(),
        ensures
            r == self.asks_for(),
    {
        match self {
            Bme280Init::ReadChipId { addresses, candidate } => Some(
                I2cAction::Read { address: addresses[*candidate], register: REG_CHIP_ID, len: 1 },
            ),
            Bme280Init::Reset { address, .. } => Some(
                I2cAction::Write { address: *address, register: REG_RESET, value: SOFT_RESET },
            ),
            Bme280Init::WaitForReset { .. } => Some(I2cAction::Wait { ms: RESET_WAIT_MS }),
            Bme280Init::ReadCalibration1 { address, .. } => Some(
                I2cAction::Read { address: *address, register: REG_CALIB1, len: 26 },
            ),
            Bme280Init::ReadCalibration2 { address, .. } => Some(
                I2cAction::Read { address: *address, register: REG_CALIB2, len: 7 },
            ),
            Bme280Init::EnableHumidity { sensor } => Some(
                I2cAction::Write {
                    address: sensor.address,
                    register: REG_CTRL_HUM,
                    value: CTRL_HUM_OSRS_X1,
                },
            ),
            Bme280Init::Finished(_) => None,
        }
    }

    /// Takes what came of the action asked for.
    pub fn next(self, event: I2cEvent) -> (r: Bme280Init)
        requires
            self.wf(),
        ensures
            r == self.after(event),
            r.wf(),
    {
        match (self, event) {
            (Bme280Init::ReadChipId { addresses, candidate }, I2cEvent::Read(Err(_))) => {
                if addresses.len() - candidate > 1 {
                    Bme280Init::ReadChipId { addresses, candidate: candidate + 1 }
                } else {
                    Bme280Init::Finished(Err(Error::Missing))
                }
            },
            (Bme280Init::ReadChipId { addresses, candidate }, I2cEvent::Read(Ok(bytes))) => {
                if bytes.len() == 1 {
                    identify(addresses[candidate], bytes[0])
                } else {
                    Bme280Init::ReadChipId { addresses, candidate }
                }
            },
            (Bme280Init::Reset { address, is_bmp280 }, I2cEvent::Written(result)) => match result {
                Ok(_) => Bme280Init::WaitForReset { address, is_bmp280 },
                Err(err) => Bme280Init::Finished(Err(Error::I2c(err))),
            },
            (Bme280Init::WaitForReset { address, is_bmp280 }, I2cEvent::Waited) => {
                Bme280Init::ReadCalibration1 { address, is_bmp280 }
            },
            (Bme280Init::ReadCalibration1 { address, is_bmp280 }, I2cEvent::Read(result)) => {
                match result {
                    Ok(block1) => {
                        if block1.len() == 26 {
                            Bme280Init::ReadCalibration2 { address, is_bmp280, block1 }
                        } else {
                            Bme280Init::ReadCalibration1 { address, is_bmp280 }
                        }
                    },
                    Err(err) => Bme280Init::Finished(Err(Error::I2c(err))),
                }
            },
            (
                Bme280Init::ReadCalibration2 { address, is_bmp280, block1 },
                I2cEvent::Read(result),
            ) => match result {
                Ok(block2) => {
                    if block2.len() == 7 {
                        calibrated(address, is_bmp280, block1.as_slice(), block2.as_slice())
                    } else {
                        Bme280Init::ReadCalibration2 { address, is_bmp280, block1 }
                    }
                },
                Err(err) => Bme280Init::Finished(Err(Error::I2c(err))),
            },
            (Bme280Init::EnableHumidity { sensor }, I2cEvent::Written(result)) => match result {
                Ok(_) => Bme280Init::Finished(Ok(sensor)),
                Err(err) => Bme280Init::Finished(Err(Error::I2c(err))),
            },
            (state, _) => state,
        }
    }
}

/// Start-up after the device at `address` answered with the chip identifier `id`.
fn identify(address: u8, id: u8) -> (r: Bme280Init)
    ensures
        r == identified(address, id),
        r.wf(),
{
    if address == 0 {
        return Bme280Init::Finished(Err(Error::Missing));
    }
    if id == CHIP_ID_BME280 {
        Bme280Init::Reset { address, is_bmp280: false }
    } else if id == CHIP_IDS_BMP280[0] || id == CHIP_IDS_BMP280[1] || id == CHIP_IDS_BMP280[2] {
        Bme280Init::Reset { address, is_bmp280: true }
    } else {
        Bme280Init::Finished(Err(Error::UnexpectedChipId(id)))
    }
}

/// Start-up after both calibration blocks were read.
fn calibrated(address: u8, is_bmp280: bool, block1: &[u8], block2: &[u8]) -> (r: Bme280Init)
    requires
        block1@.len() == 26,
        block2@.len() == 7,
    ensures
        ({
            let sensor = Bme280 {
                address,
                is_bmp280,
                calibration: crate::calibration::parsed(block1@, block2@),
            };
            r == if is_bmp280 {
                Bme280Init::Finished(Ok(sensor))
            } else {
                Bme280Init::EnableHumidity { sensor }
            }
        }),
        r.wf(),
{
    let mut buf1 = [0u8; 26];
    for i in 0..26usize
        invariant
            block1@.len() == 26,
            forall|j: int| 0 <= j < i ==> buf1@[j] == block1@[j],
    {
        buf1[i] = block1[i];
    }
    let mut buf2 = [0u8; 7];
    for i in 0..7usize
        invariant
            block2@.len() == 7,
            forall|j: int| 0 <= j < i ==> buf2@[j] == block2@[j],
    {
        buf2[i] = block2[i];
    }
    assert(buf1@ =~= block1@);
    assert(buf2@ =~= block2@);
    let sensor = Bme280 { address, is_bmp280, calibration: Calibration::parse(&buf1, &buf2) };
    if is_bmp280 {
        Bme280Init::Finished(Ok(sensor))
    } else {
        Bme280Init::EnableHumidity { sensor }
    }
}

impl Bme280 {
    pub open spec fn wf(self) -> bool {
        self.calibration.wf()
    }

    /// The sensor after the data registers `raw` were read from it.
    pub open spec fn sampled(self, raw: Seq<u8>) -> Bme280 {
        Bme280 {
            calibration: Calibration {
                t_fine: self.calibration.fine_temperature(adc20(raw, 3)) as i32,
                ..self.calibration
            },
            ..self
        }
    }

    /// The sample in the data registers `raw`.
    pub open spec fn reading(self, raw: Seq<u8>) -> Reading {
        let cal = self.sampled(raw).calibration;
        Reading {
            temperature_centidegrees: Calibration::temperature(
                self.calibration.fine_temperature(adc20(raw, 3)),
            ) as i32,
            pressure_pa: cal.pressure(adc20(raw, 0)) as u32,
            humidity_q1024: if self.is_bmp280 {
                0
            } else {
                cal.humidity(adc16(raw, 6)) as u32
            },
            is_bmp280: self.is_bmp280,
        }
    }

    /// Starts a sensor at the first of `addresses` that answers.
    pub fn init(addresses: &[u8]) -> (r: Bme280Init)
        ensures
            r.wf(),
            addresses@.len() == 0 ==> r == Bme280Init::Finished(Err(Error::Missing)),
            addresses@.len() > 0 ==> r.asks_for() == Some(
                I2cAction::Read { address: addresses@[0], register: REG_CHIP_ID, len: 1 },
            ),
            addresses@.len() > 0 ==> (r matches Bme280Init::ReadChipId {
                addresses: kept,
                candidate,
            } && kept@ == addresses@ && candidate == 0),
    {
        if addresses.len() == 0 {
            return Bme280Init::Finished(Err(Error::Missing));
        }
        Bme280Init::ReadChipId { addresses: crate::bytes::copy_bytes(addresses), candidate: 0 }
    }

    /// Bus address of the sensor.
    pub fn address(&self) -> (r: u8)
        ensures
            r == self.address,
    {
        self.address
    }

    /// Starts a forced sample.
    pub fn read_forced(&self) -> (r: Bme280Sample)
        ensures
            r == Bme280Sample::Trigger,
    {
        Bme280Sample::Trigger
    }

    /// Decodes and compensates the data registers of one forced sample.
    pub fn decode(&mut self, raw: &[u8]) -> (r: Reading)
        requires
            old(self).wf(),
            raw@.len() == 8,
        ensures
            *final(self) == old(self).sampled(raw@),
            final(self).wf(),
            r == old(self).reading(raw@),
            r.humidity_q1024 <= crate::calibration::HUMIDITY_Q1024_MAX,
    {
        let adc_p = (raw[0] as i32) * 4096 + (raw[1] as i32) * 16 + (raw[2] / 16) as i32;
        let adc_t = (raw[3] as i32) * 4096 + (raw[4] as i32) * 16 + (raw[5] / 16) as i32;
        let adc_h = (raw[6] as i32) * 256 + raw[7] as i32;

        let temperature_centidegrees = self.calibration.compensate_temperature(adc_t);
        let pressure_pa = self.calibration.compensate_pressure(adc_p);
        let humidity_q1024: u32 = if self.is_bmp280 {
            0
        } else {
            self.calibration.compensate_humidity(adc_h)
        };
        Reading { temperature_centidegrees, pressure_pa, humidity_q1024, is_bmp280: self.is_bmp280 }
    }
}

impl Bme280Sample {
    /// The action that this state asks for, of the sensor at `address`.
    pub open spec fn asks_for(self, address: u8) -> Option<I2cAction> {
        match self {
            Bme280Sample::Trigger => Some(
                I2cAction::Write { address, register: REG_CTRL_MEAS, value: CTRL_MEAS_FORCED_X1 },
            ),
            Bme280Sample::WaitForSample => Some(I2cAction::Wait { ms: SAMPLE_WAIT_MS }),
            Bme280Sample::ReadData => Some(
                I2cAction::Read { address, register: REG_DATA, len: 8 },
            ),
            Bme280Sample::Finished(_) => None,
        }
    }

    /// The event brings the data registers that this state waits for.
    pub open spec fn completes(self, event: I2cEvent) -> bool {
        &&& self is ReadData
        &&& event matches I2cEvent::Read(Ok(raw))
        &&& raw@.len() == 8
    }

    /// The state after `event`. An event that does not answer the action asked for changes
    /// nothing.
    pub open spec fn after(self, sensor: Bme280, event: I2cEvent) -> Bme280Sample {
        match (self, event) {
            (Bme280Sample::Trigger, I2cEvent::Written(Ok(_))) => Bme280Sample::WaitForSample,
            (Bme280Sample::Trigger, I2cEvent::Written(Err(err))) => Bme280Sample::Finished(
                Err(Error::I2c(err)),
            ),
            (Bme280Sample::WaitForSample, I2cEvent::Waited) => Bme280Sample::ReadData,
            (Bme280Sample::ReadData, I2cEvent::Read(Ok(raw))) if raw@.len() == 8 => {
                Bme280Sample::Finished(Ok(sensor.reading(raw@)))
            },
            (Bme280Sample::ReadData, I2cEvent::Read(Err(err))) => Bme280Sample::Finished(
                Err(Error::I2c(err)),
            ),
            _ => self,
        }
    }

    /// The action on the bus that the sample needs next; none once it is finished.
    pub fn action(&self, sensor: &Bme280) -> (r: Option<I2cAction>)
        ensures
            r == self.asks_for(sensor.address),
    {
        match self {
            Bme280Sample::Trigger => Some(
                I2cAction::Write {
                    address: sensor.address,
                    register: REG_CTRL_MEAS,
                    value: CTRL_MEAS_FORCED_X1,
                },
            ),
            Bme280Sample::WaitForSample => Some(I2cAction::Wait { ms: SAMPLE_WAIT_MS }),
            Bme280Sample::ReadData => Some(
                I2cAction::Read { address: sensor.address, register: REG_DATA, len: 8 },
            ),
            Bme280Sample::Finished(_) => None,
        }
    }

    /// Takes what came of the action asked for.
    pub fn next(self, sensor: &mut Bme280, event: &I2cEvent) -> (r: Bme280Sample)
        requires
            old(sensor).wf(),
        ensures
            r == self.after(*old(sensor), *event),
            self.completes(*event) ==> *final(sensor) == old(sensor).sampled(
                event->Read_0->Ok_0@,
            ),
            !self.completes(*event) ==> *final(sensor) == *old(sensor),
            final(sensor).wf(),
    {
        match (self, event) {
            (Bme280Sample::Trigger, I2cEvent::Written(result)) => match result {
                Ok(_) => Bme280Sample::WaitForSample,
                Err(err) => Bme280Sample::Finished(Err(Error::I2c(*err))),
            },
            (Bme280Sample::WaitForSample, I2cEvent::Waited) => Bme280Sample::ReadData,
            (Bme280Sample::ReadData, I2cEvent::Read(result)) => match result {
                Ok(raw) => {
                    if raw.len() == 8 {
                        Bme280Sample::Finished(Ok(sensor.decode(raw.as_slice())))
                    } else {
                        Bme280Sample::ReadData
                    }
                },
                Err(err) => Bme280Sample::Finished(Err(Error::I2c(*err))),
            },
            (state, _) => state,
        }
    }
}

/// Samples added up for averaging.
#[derive(Clone, Copy, Debug, PartialEq, Eq, Structural)]
pub struct Bme280Average {
    pub temperature_sum: i64,
    pub pressure_sum: u64,
    pub humidity_sum: u64,
    pub count: u32,
    pub is_bmp280: bool,
}

impl Bme280Average {
    /// No samples.
    pub open spec fn none() -> Bme280Average {
        Bme280Average {
            temperature_sum: 0,
            pressure_sum: 0,
            humidity_sum: 0,
            count: 0,
            is_bmp280: false,
        }
    }

    /// The sums are sums of `count` samples.
    pub open spec fn wf(self) -> bool {
        &&& i32::MIN * self.count <= self.temperature_sum <= i32::MAX * self.count
        &&& self.pressure_sum <= u32::MAX * self.count
        &&& self.humidity_sum <= u32::MAX * self.count
    }

    /// These samples and one more.
    pub open spec fn with(self, reading: Reading) -> Bme280Average {
        Bme280Average {
            temperature_sum: (self.temperature_sum + reading.temperature_centidegrees) as i64,
            pressure_sum: (self.pressure_sum + reading.pressure_pa) as u64,
            humidity_sum: (self.humidity_sum + reading.humidity_q1024) as u64,
            count: (self.count + 1) as u32,
            is_bmp280: reading.is_bmp280,
        }
    }

    /// The averages, rounded toward zero; none without samples.
    pub open spec fn mean(self) -> Option<Reading> {
        if self.count == 0 {
            None
        } else {
            Some(
                Reading {
                    temperature_centidegrees: crate::arith::trunc_div(
                        self.temperature_sum as int,
                        self.count as int,
                    ) as i32,
                    pressure_pa: (self.pressure_sum as int / self.count as int) as u32,
                    humidity_q1024: (self.humidity_sum as int / self.count as int) as u32,
                    is_bmp280: self.is_bmp280,
                },
            )
        }
    }

    /// Whether one more sample can be counted.
    pub fn has_room(&self) -> (r: bool)
        ensures
            r == (self.count < u32::MAX),
    {
        self.count < 0xffff_ffff
    }

    /// Adds a sample.
    pub fn add(&mut self, reading: Reading)
        requires
            old(self).wf(),
            old(self).count < u32::MAX,
        ensures
            *final(self) == old(self).with(reading),
            final(self).wf(),
            final(self).count == old(self).count + 1,
            final(self).temperature_sum == old(self).temperature_sum
                + reading.temperature_centidegrees,
            final(self).pressure_sum == old(self).pressure_sum + reading.pressure_pa,
            final(self).humidity_sum == old(self).humidity_sum + reading.humidity_q1024,
    {
        self.temperature_sum = self.temperature_sum + reading.temperature_centidegrees as i64;
        self.pressure_sum = self.pressure_sum + reading.pressure_pa as u64;
        self.humidity_sum = self.humidity_sum + reading.humidity_q1024 as u64;
        self.count = self.count + 1;
        self.is_bmp280 = reading.is_bmp280;
    }

    /// The average of the samples added.
    pub fn finish(&self) -> (r: Option<Reading>)
        requires
            self.wf(),
        ensures
            r == self.mean(),
    {
        if self.count == 0 {
            return None;
        }
        proof {
            lemma_mean_in_range(
                self.temperature_sum as int,
                self.count as int,
                i32::MIN as int,
                i32::MAX as int,
            );
            lemma_mean_in_range(self.pressure_sum as int, self.count as int, 0, u32::MAX as int);
            lemma_mean_in_range(self.humidity_sum as int, self.count as int, 0, u32::MAX as int);
        }
        let count_i64 = self.count as i64;
        let count_u64 = self.count as u64;
        Some(
            Reading {
                temperature_centidegrees: (self.temperature_sum / count_i64) as i32,
                pressure_pa: (self.pressure_sum / count_u64) as u32,
                humidity_q1024: (self.humidity_sum / count_u64) as u32,
                is_bmp280: self.is_bmp280,
            },
        )
    }
}

impl Default for Bme280Average {
    fn default() -> (r: Self)
        ensures
            r == Bme280Average::none(),
            r.wf(),
    {
        Bme280Average {
            temperature_sum: 0,
            pressure_sum: 0,
            humidity_sum: 0,
            count: 0,
            is_bmp280: false,
        }
    }
}

/// What to do next in the measurement phase of the air sensor.
#[derive(Clone, Copy, Debug, PartialEq, Eq)]
pub enum Bme280PhaseStep {
    /// Switch the sensor rail on.
    PowerOn,
    /// Sleep while the rail settles.
    Settle { ms: u64 },
    /// Start the sensor at the first of these addresses that answers.
    Init { addresses: [u8; 2] },
    /// Take a forced sample.
    Sample,
    /// Sleep between two samples.
    Pause { ms: u64 },
    /// Release the bus and switch the sensor rail off, with this average of so many samples.
    PowerOff { average: Option<Reading>, samples: u32 },
    /// The phase is over with this average.
    Ended { average: Option<Reading> },
}

/// What came of a step.
#[derive(Clone, Copy, Debug, PartialEq, Eq)]
pub enum Bme280PhaseEvent {
    PoweredOn,
    Slept,
    /// Whether the sensor has started.
    Started { ok: bool },
    Sampled(Result<Reading, Error>),
    PoweredOff,
}

/// The measurement phase of the air sensor: samples are taken until the deadline and averaged.
#[derive(Clone, Copy, Debug, PartialEq, Eq)]
pub struct Bme280Phase {
    pub deadline: Instant,
    pub average: Bme280Average,
    pub step: Bme280PhaseStep,
}

impl Bme280Phase {
    pub open spec fn wf(self) -> bool {
        self.average.wf()
    }

    /// The sum of the samples has room for what `event` brings.
    pub open spec fn has_room_for(self, event: Bme280PhaseEvent) -> bool {
        event matches Bme280PhaseEvent::Sampled(Ok(_)) ==> self.average.count < u32::MAX
    }

    /// The phase at `now`, once the sensor is ready for a sample.
    pub open spec fn ready(self, now: Instant) -> Bme280Phase {
        let step = if now.ticks < self.deadline.ticks {
            Bme280PhaseStep::Sample
        } else {
            Bme280PhaseStep::PowerOff {
                average: self.average.mean(),
                samples: self.average.count,
            }
        };
        Bme280Phase { step, ..self }
    }

    /// The phase once `event` came at `now`. An event that does not answer what was asked for
    /// changes nothing.
    pub open spec fn after(self, event: Bme280PhaseEvent, now: Instant) -> Bme280Phase {
        match (self.step, event) {
            (Bme280PhaseStep::PowerOn, Bme280PhaseEvent::PoweredOn) => Bme280Phase {
                deadline: now.plus_ms(SENSOR_ACTIVE_PHASE_MS as int),
                step: Bme280PhaseStep::Settle { ms: BME280_POWER_SETTLE_MS },
                ..self
            },
            (Bme280PhaseStep::Settle { .. }, Bme280PhaseEvent::Slept) => Bme280Phase {
                step: Bme280PhaseStep::Init { addresses: BME280_ADDRESSES },
                ..self
            },
            (Bme280PhaseStep::Init { .. }, Bme280PhaseEvent::Started { ok }) => if ok {
                self.ready(now)
            } else {
                Bme280Phase {
                    step: Bme280PhaseStep::PowerOff { average: None, samples: 0 },
                    ..self
                }
            },
            (Bme280PhaseStep::Sample, Bme280PhaseEvent::Sampled(sample)) => Bme280Phase {
                average: match sample {
                    Ok(reading) => self.average.with(reading),
                    Err(_) => self.average,
                },
                step: Bme280PhaseStep::Pause { ms: SENSOR_SAMPLE_INTERVAL_MS },
                ..self
            },
            (Bme280PhaseStep::Pause { .. }, Bme280PhaseEvent::Slept) => self.ready(now),
            (Bme280PhaseStep::PowerOff { average, .. }, Bme280PhaseEvent::PoweredOff) => {
                Bme280Phase { step: Bme280PhaseStep::Ended { average }, ..self }
            },
            _ => self,
        }
    }

    fn become_ready(&mut self, now: Instant)
        requires
            old(self).wf(),
        ensures
            *final(self) == old(self).ready(now),
    {
        self.step = if now.reached(self.deadline) {
            Bme280PhaseStep::PowerOff {
                average: self.average.finish(),
                samples: self.average.count,
            }
        } else {
            Bme280PhaseStep::Sample
        };
    }

    /// What was asked for came to `event` at `now`.
    pub fn next(&mut self, event: Bme280PhaseEvent, now: Instant)
        requires
            old(self).wf(),
            old(self).has_room_for(event),
            now.valid(),
        ensures
            final(self).wf(),
            *final(self) == old(self).after(event, now),
    {
        match (self.step, event) {
            (Bme280PhaseStep::PowerOn, Bme280PhaseEvent::PoweredOn) => {
                self.deadline = now.after_millis(SENSOR_ACTIVE_PHASE_MS);
                self.step = Bme280PhaseStep::Settle { ms: BME280_POWER_SETTLE_MS };
            },
            (Bme280PhaseStep::Settle { .. }, Bme280PhaseEvent::Slept) => {
                self.step = Bme280PhaseStep::Init { addresses: BME280_ADDRESSES };
            },
            (Bme280PhaseStep::Init { .. }, Bme280PhaseEvent::Started { ok }) => {
                if ok {
                    self.become_ready(now);
                } else {
                    self.step = Bme280PhaseStep::PowerOff { average: None, samples: 0 };
                }
            },
            (Bme280PhaseStep::Sample, Bme280PhaseEvent::Sampled(sample)) => {
                if let Ok(reading) = sample {
                    self.average.add(reading);
                }
                self.step = Bme280PhaseStep::Pause { ms: SENSOR_SAMPLE_INTERVAL_MS };
            },
            (Bme280PhaseStep::Pause { .. }, Bme280PhaseEvent::Slept) => {
                self.become_ready(now);
            },
            (Bme280PhaseStep::PowerOff { average, .. }, Bme280PhaseEvent::PoweredOff) => {
                self.step = Bme280PhaseStep::Ended { average };
            },
            _ => {},
        }
    }
}

impl Bme280Phase {
    /// The phase as it starts: nothing was sampled, and the rail is off.
    pub open spec fn begun(now: Instant) -> Bme280Phase {
        Bme280Phase {
            deadline: now,
            average: Bme280Average::none(),
            step: Bme280PhaseStep::PowerOn,
        }
    }
}

/// Starts the measurement phase of the air sensor.
pub fn run_bme280_phase(now: Instant) -> (r: Bme280Phase)
    ensures
        r == Bme280Phase::begun(now),
        r.wf(),
        r == (Bme280Phase {
            deadline: now,
            average: Bme280Average::none(),
            step: Bme280PhaseStep::PowerOn,
        }),
{
    Bme280Phase {
        deadline: now,
        average: Bme280Average::default(),
        step: Bme280PhaseStep::PowerOn,
    }
}

/// Log message of an average air sample of the sensor at `address`.
pub open spec fn bme280_average_text(address: u8, reading: Reading, samples: u32) -> Seq<char> {
    let t = crate::text::magnitude(reading.temperature_centidegrees as int);
    let h = reading.humidity_q1024 * 10 / 1024;
    "[bme ] avg "@ + crate::text::decimal(samples as nat) + " samples addr=0x"@
        + crate::text::upper_hex(address) + " temp="@ + crate::text::sign_text(
        reading.temperature_centidegrees as int,
    ) + crate::text::decimal((t / 100) as nat) + "."@ + crate::text::decimal((t % 100 / 10) as nat)
        + "C pressure="@ + crate::text::decimal((reading.pressure_pa / 100) as nat) + "."@
        + crate::text::two_digits((reading.pressure_pa % 100) as int) + "hPa humidity="@ + (
    if reading.is_bmp280 {
        "n/a"@
    } else {
        crate::text::decimal((h / 10) as nat) + "."@ + crate::text::decimal((h % 10) as nat) + "%"@
    })
}

/// Log message of an average air sample of the sensor at `address`.
pub fn log_bme280_average(address: u8, reading: Reading, samples: u32) -> (r: String)
    requires
        !reading.is_bmp280 ==> reading.humidity_q1024 * 10 <= u32::MAX,
    ensures
        r@ == bme280_average_text(address, reading, samples),
{
    let t: u64 = if reading.temperature_centidegrees < 0 {
        (-(reading.temperature_centidegrees as i64)) as u64
    } else {
        reading.temperature_centidegrees as u64
    };
    let mut text = String::from_str("[bme ] avg ");
    push_decimal(&mut text, samples as u64);
    text.append(" samples addr=0x");
    push_upper_hex(&mut text, address);
    text.append(" temp=");
    if reading.temperature_centidegrees < 0 {
        text.append("-");
    } else {
        text.append("");
    }
    push_decimal(&mut text, t / 100);
    text.append(".");
    push_decimal(&mut text, t % 100 / 10);
    text.append("C pressure=");
    push_decimal(&mut text, (reading.pressure_pa / 100) as u64);
    text.append(".");
    push_two_digits(&mut text, (reading.pressure_pa % 100) as u64);
    text.append("hPa humidity=");
    let ghost head = text@;
    if reading.is_bmp280 {
        text.append("n/a");
    } else {
        let humidity_x10 = (reading.humidity_q1024 * 10) / 1024;
        push_decimal(&mut text, (humidity_x10 / 10) as u64);
        text.append(".");
        push_decimal(&mut text, (humidity_x10 % 10) as u64);
        text.append("%");
        proof {
            let h = reading.humidity_q1024 * 10 / 1024;
            assert(text@ =~= head + (crate::text::decimal((h / 10) as nat) + "."@
                + crate::text::decimal((h % 10) as nat) + "%"@));
        }
    }
    text
}

/// The sensor is only asked for a sample before the phase is over, and the phase only ends after the
/// rail was switched off.
pub proof fn law_air_phase_ends_with_the_rail_off(
    before: Bme280Phase,
    event: Bme280PhaseEvent,
    now: Instant,
)
    ensures
        before.after(event, now).step is Sample && before.step !is Sample ==> now.ticks
            < before.deadline.ticks,
        before.after(event, now).step is Ended && before.step !is Ended ==> before.step is PowerOff
            && event is PoweredOff,
        before.step is Ended ==> before.after(event, now) == before,
{
}

/// The sum of some samples.
pub open spec fn summed(readings: Seq<Reading>) -> Bme280Average
    decreases readings.len(),
{
    if readings.len() == 0 {
        Bme280Average::none()
    } else {
        summed(readings.drop_last()).with(readings.last())
    }
}

/// Each value of `a` is at most that of `b`.
pub open spec fn reading_at_most(a: Reading, b: Reading) -> bool {
    &&& a.temperature_centidegrees <= b.temperature_centidegrees
    &&& a.pressure_pa <= b.pressure_pa
    &&& a.humidity_q1024 <= b.humidity_q1024
}

proof fn lemma_sums_are_bounded(readings: Seq<Reading>, low: Reading, high: Reading)
    requires
        readings.len() <= u32::MAX,
        forall|i: int|
            0 <= i < readings.len() ==> reading_at_most(low, #[trigger] readings[i])
                && reading_at_most(readings[i], high),
    ensures
        ({
            let sum = summed(readings);
            let n = readings.len();
            &&& sum.count == n
            &&& low.temperature_centidegrees * n <= sum.temperature_sum
                <= high.temperature_centidegrees * n
            &&& low.pressure_pa * n <= sum.pressure_sum <= high.pressure_pa * n
            &&& low.humidity_q1024 * n <= sum.humidity_sum <= high.humidity_q1024 * n
        }),
    decreases readings.len(),
{
    if readings.len() > 0 {
        let front = readings.drop_last();
        assert forall|i: int| 0 <= i < front.len() implies reading_at_most(
            low,
            #[trigger] front[i],
        ) && reading_at_most(front[i], high) by {
            assert(front[i] == readings[i]);
        }
        lemma_sums_are_bounded(front, low, high);
        assert(reading_at_most(low, readings[readings.len() - 1]));
        let n = readings.len() as int;
        crate::arith::lemma_one_more(low.temperature_centidegrees as int, n);
        crate::arith::lemma_one_more(high.temperature_centidegrees as int, n);
        crate::arith::lemma_one_more(low.pressure_pa as int, n);
        crate::arith::lemma_one_more(high.pressure_pa as int, n);
        crate::arith::lemma_one_more(low.humidity_q1024 as int, n);
        crate::arith::lemma_one_more(high.humidity_q1024 as int, n);
        crate::arith::lemma_product_fits(low.temperature_centidegrees as int, n);
        crate::arith::lemma_product_fits(high.temperature_centidegrees as int, n);
        crate::arith::lemma_product_fits(high.pressure_pa as int, n);
        crate::arith::lemma_product_fits(high.humidity_q1024 as int, n);
    }
}

/// The average of some samples lies between any two bounds that they all lie between.
pub proof fn law_air_average_lies_between_its_samples(
    readings: Seq<Reading>,
    low: Reading,
    high: Reading,
)
    requires
        0 < readings.len() <= u32::MAX,
        forall|i: int|
            0 <= i < readings.len() ==> reading_at_most(low, #[trigger] readings[i])
                && reading_at_most(readings[i], high),
    ensures
        summed(readings).mean() matches Some(mean) && reading_at_most(low, mean)
            && reading_at_most(mean, high),
{
    lemma_sums_are_bounded(readings, low, high);
    let sum = summed(readings);
    let n = readings.len() as int;
    lemma_mean_in_range(
        sum.temperature_sum as int,
        n,
        low.temperature_centidegrees as int,
        high.temperature_centidegrees as int,
    );
    lemma_mean_in_range(sum.pressure_sum as int, n, low.pressure_pa as int, high.pressure_pa as int);
    lemma_mean_in_range(
        sum.humidity_sum as int,
        n,
        low.humidity_q1024 as int,
        high.humidity_q1024 as int,
    );
}

/// A BMP280 has no humidity sensor: its samples carry none.
pub proof fn law_bmp280_has_no_humidity(sensor: Bme280, raw: Seq<u8>)
    requires
        sensor.is_bmp280,
    ensures
        sensor.reading(raw).is_bmp280,
        sensor.reading(raw).humidity_q1024 == 0,
{
}

/// The average of a BMP280's samples carries no humidity either, and is marked as one of a BMP280.
pub proof fn law_bmp280_average_has_no_humidity(readings: Seq<Reading>)
    requires
        0 < readings.len() <= u32::MAX,
        forall|i: int|
            0 <= i < readings.len() ==> (#[trigger] readings[i]).is_bmp280
                && readings[i].humidity_q1024 == 0,
    ensures
        summed(readings).mean() matches Some(mean) && mean.is_bmp280 && mean.humidity_q1024 == 0,
{
    let low = Reading {
        temperature_centidegrees: i32::MIN,
        pressure_pa: 0,
        humidity_q1024: 0,
        is_bmp280: true,
    };
    let high = Reading {
        temperature_centidegrees: i32::MAX,
        pressure_pa: u32::MAX,
        humidity_q1024: 0,
        is_bmp280: true,
    };
    law_air_average_lies_between_its_samples(readings, low, high);
    assert(readings[readings.len() - 1].is_bmp280);
}

/// `event` is an answer to `action`.
pub open spec fn answers(action: I2cAction, event: I2cEvent) -> bool {
    match (action, event) {
        (I2cAction::Read { len, .. }, I2cEvent::Read(Ok(bytes))) => bytes@.len() == len,
        (I2cAction::Read { .. }, I2cEvent::Read(Err(_))) => true,
        (I2cAction::Write { .. }, I2cEvent::Written(_)) => true,
        (I2cAction::Wait { .. }, I2cEvent::Waited) => true,
        _ => false,
    }
}

impl Bme280Init {
    /// At most so many actions are still to come.
    pub open spec fn actions_left(self) -> int {
        match self {
            Bme280Init::ReadChipId { addresses, candidate } => 5 + addresses@.len() - candidate,
            Bme280Init::Reset { .. } => 5,
            Bme280Init::WaitForReset { .. } => 4,
            Bme280Init::ReadCalibration1 { .. } => 3,
            Bme280Init::ReadCalibration2 { .. } => 2,
            Bme280Init::EnableHumidity { .. } => 1,
            Bme280Init::Finished(_) => 0,
        }
    }
}

impl Bme280Sample {
    /// At most so many actions are still to come.
    pub open spec fn actions_left(self) -> int {
        match self {
            Bme280Sample::Trigger => 3,
            Bme280Sample::WaitForSample => 2,
            Bme280Sample::ReadData => 1,
            Bme280Sample::Finished(_) => 0,
        }
    }
}

/// Start-up ends: it asks for an action until it is finished, and every answer brings it closer.
pub proof fn law_start_up_ends(init: Bme280Init, event: I2cEvent)
    requires
        init.wf(),
    ensures
        init.actions_left() >= 0,
        init.asks_for() is None <==> init is Finished,
        init.asks_for() matches Some(action) ==> (answers(action, event) ==> init.after(
            event,
        ).actions_left() < init.actions_left()),
{
    if let Bme280Init::ReadChipId { addresses, .. } = init {
        assert(addresses@.len() == addresses.len());
    }
}

/// A forced sample ends: it asks for an action until it is finished, and every answer brings it
/// closer.
pub proof fn law_sample_ends(sample: Bme280Sample, sensor: Bme280, event: I2cEvent)
    ensures
        sample.actions_left() >= 0,
        sample.asks_for(sensor.address) is None <==> sample is Finished,
        sample.asks_for(sensor.address) matches Some(action) ==> (answers(action, event)
            ==> sample.after(sensor, event).actions_left() < sample.actions_left()),
{
}

impl Bme280Init {
    /// The state after some events.
    pub open spec fn after_all(self, events: Seq<I2cEvent>) -> Bme280Init
        decreases events.len(),
    {
        if events.len() == 0 {
            self
        } else {
            self.after_all(events.drop_last()).after(events.last())
        }
    }

    /// The address and the kind of the sensor that start-up is about, once it was identified.
    pub open spec fn found(self) -> Option<(u8, bool)> {
        match self {
            Bme280Init::Reset { address, is_bmp280 } => Some((address, is_bmp280)),
            Bme280Init::WaitForReset { address, is_bmp280 } => Some((address, is_bmp280)),
            Bme280Init::ReadCalibration1 { address, is_bmp280 } => Some((address, is_bmp280)),
            Bme280Init::ReadCalibration2 { address, is_bmp280, .. } => Some((address, is_bmp280)),
            Bme280Init::EnableHumidity { sensor } => Some((sensor.address, sensor.is_bmp280)),
            Bme280Init::Finished(Ok(sensor)) => Some((sensor.address, sensor.is_bmp280)),
            _ => None,
        }
    }
}

/// The sensor that is started is at the address whose chip identifier was the first to be read,
/// whatever addresses were tried before it. 0x60 is a BME280, 0x56 to 0x58 a BMP280, and any other
/// identifier is an error. Nothing answers at address zero.
pub proof fn law_sensor_is_the_first_that_answers(
    addresses: Vec<u8>,
    failures: Seq<I2cEvent>,
    answer: Vec<u8>,
)
    requires
        failures.len() < addresses@.len(),
        forall|i: int|
            0 <= i < failures.len() ==> (#[trigger] failures[i]) matches I2cEvent::Read(Err(_)),
        answer@.len() == 1,
    ensures
        ({
            let start = Bme280Init::ReadChipId { addresses, candidate: 0 };
            let address = addresses@[failures.len() as int];
            let asking = start.after_all(failures);
            let after = asking.after(I2cEvent::Read(Ok(answer)));
            let id = answer@[0];
            &&& asking.asks_for() == Some(I2cAction::Read { address, register: 0xd0, len: 1 })
            &&& if address == 0 {
                after == Bme280Init::Finished(Err(Error::Missing))
            } else if id == 0x60 {
                after == Bme280Init::Reset { address, is_bmp280: false }
            } else if 0x56 <= id <= 0x58 {
                after == Bme280Init::Reset { address, is_bmp280: true }
            } else {
                after == Bme280Init::Finished(Err(Error::UnexpectedChipId(id)))
            }
        }),
{
    lemma_failures_move_on(addresses, failures);
}

/// Where no address answers, there is no sensor.
pub proof fn law_silent_bus_has_no_sensor(addresses: Vec<u8>, failures: Seq<I2cEvent>)
    requires
        0 < failures.len() == addresses@.len(),
        forall|i: int|
            0 <= i < failures.len() ==> (#[trigger] failures[i]) matches I2cEvent::Read(Err(_)),
    ensures
        (Bme280Init::ReadChipId { addresses, candidate: 0 }).after_all(failures)
            == Bme280Init::Finished(Err(Error::Missing)),
{
    let front = failures.drop_last();
    assert forall|i: int| 0 <= i < front.len() implies (#[trigger] front[i]) matches I2cEvent::Read(
        Err(_),
    ) by {
        assert(front[i] == failures[i]);
    }
    lemma_failures_move_on(addresses, front);
    assert(failures[failures.len() - 1] is Read);
}

proof fn lemma_failures_move_on(addresses: Vec<u8>, failures: Seq<I2cEvent>)
    requires
        failures.len() < addresses@.len(),
        forall|i: int|
            0 <= i < failures.len() ==> (#[trigger] failures[i]) matches I2cEvent::Read(Err(_)),
    ensures
        (Bme280Init::ReadChipId { addresses, candidate: 0 }).after_all(failures)
            == (Bme280Init::ReadChipId { addresses, candidate: failures.len() as usize }),
        failures.len() as usize == failures.len(),
    decreases failures.len(),
{
    assert(addresses@.len() == addresses.len());
    if failures.len() > 0 {
        let front = failures.drop_last();
        assert forall|i: int| 0 <= i < front.len() implies (
        #[trigger] front[i]) matches I2cEvent::Read(Err(_)) by {
            assert(front[i] == failures[i]);
        }
        lemma_failures_move_on(addresses, front);
        assert(failures[failures.len() - 1] is Read);
    }
}

/// Once a sensor was identified, start-up stays with it: every read and every write goes to its
/// address, no event changes the address or the kind, and what is started is that sensor.
pub proof fn law_start_up_stays_with_its_sensor(init: Bme280Init, event: I2cEvent)
    requires
        init.found() is Some,
    ensures
        ({
            let after = init.after(event);
            let (address, _) = init.found().unwrap();
            &&& after.found() == init.found() || (after matches Bme280Init::Finished(Err(_)))
            &&& (init.asks_for() matches Some(I2cAction::Read { address: to, .. }) ==> to
                == address)
            &&& (init.asks_for() matches Some(I2cAction::Write { address: to, .. }) ==> to
                == address)
        }),
{
}

/// Start-up of an identified sensor resets it, waits for three milliseconds, reads both blocks of
/// trimming values, and switches the humidity on where there is one. The sensor is then started with
/// the values that the blocks hold.
pub proof fn law_start_up_runs_in_order(
    address: u8,
    is_bmp280: bool,
    block1: Vec<u8>,
    block2: Vec<u8>,
)
    requires
        block1@.len() == 26,
        block2@.len() == 7,
    ensures
        ({
            let s0 = Bme280Init::Reset { address, is_bmp280 };
            let s1 = s0.after(I2cEvent::Written(Ok(())));
            let s2 = s1.after(I2cEvent::Waited);
            let s3 = s2.after(I2cEvent::Read(Ok(block1)));
            let s4 = s3.after(I2cEvent::Read(Ok(block2)));
            let sensor = Bme280 {
                address,
                is_bmp280,
                calibration: crate::calibration::parsed(block1@, block2@),
            };
            &&& s0.asks_for() == Some(I2cAction::Write { address, register: 0xe0, value: 0xb6 })
            &&& s1.asks_for() == Some(I2cAction::Wait { ms: 3 })
            &&& s2.asks_for() == Some(I2cAction::Read { address, register: 0x88, len: 26 })
            &&& s3.asks_for() == Some(I2cAction::Read { address, register: 0xe1, len: 7 })
            &&& if is_bmp280 {
                s4 == Bme280Init::Finished(Ok(sensor))
            } else {
                &&& s4.asks_for() == Some(
                    I2cAction::Write { address, register: 0xf2, value: 0x01 },
                )
                &&& s4.after(I2cEvent::Written(Ok(()))) == Bme280Init::Finished(Ok(sensor))
            }
        }),
{
}

/// Once a sensor was identified, a fault of the bus ends start-up with that fault.
pub proof fn law_start_up_reports_the_fault(init: Bme280Init, fault: I2cError)
    requires
        init.found() is Some,
    ensures
        init.asks_for() matches Some(I2cAction::Write { .. }) ==> init.after(
            I2cEvent::Written(Err(fault)),
        ) == Bme280Init::Finished(Err(Error::I2c(fault))),
        init.asks_for() matches Some(I2cAction::Read { .. }) ==> init.after(
            I2cEvent::Read(Err(fault)),
        ) == Bme280Init::Finished(Err(Error::I2c(fault))),
{
}

/// What does not answer the action that start-up asked for changes nothing, and start-up that is
/// finished stays as it is.
pub proof fn law_start_up_waits_for_its_answer(init: Bme280Init, event: I2cEvent)
    ensures
        init.asks_for() matches Some(action) ==> (!answers(action, event) ==> init.after(event)
            == init),
        init is Finished ==> init.after(event) == init,
{
}

/// An answer is what the action asks for: so many bytes or a fault for a read, how it went for a
/// write, and the end of a wait.
pub proof fn law_answers_fit_their_actions(
    address: u8,
    register: u8,
    value: u8,
    len: usize,
    ms: u64,
    event: I2cEvent,
)
    ensures
        answers(I2cAction::Read { address, register, len }, event) <==> (
        event matches I2cEvent::Read(result) && (result matches Ok(bytes) ==> bytes@.len() == len)),
        answers(I2cAction::Write { address, register, value }, event) <==> event is Written,
        answers(I2cAction::Wait { ms }, event) <==> event is Waited,
{
}

/// A forced sample is triggered, takes ten milliseconds, and is read from the eight data registers.
/// A fault of the bus ends it with that fault.
pub proof fn law_sample_runs_in_order(
    sensor: Bme280,
    raw: Vec<u8>,
    event: I2cEvent,
    fault: I2cError,
)
    requires
        raw@.len() == 8,
    ensures
        ({
            let address = sensor.address;
            let s0 = Bme280Sample::Trigger;
            let s1 = s0.after(sensor, I2cEvent::Written(Ok(())));
            let s2 = s1.after(sensor, I2cEvent::Waited);
            let failed = Bme280Sample::Finished(Err(Error::I2c(fault)));
            &&& s0.asks_for(address) == Some(
                I2cAction::Write { address, register: 0xf4, value: 0x25 },
            )
            &&& s1.asks_for(address) == Some(I2cAction::Wait { ms: 10 })
            &&& s2.asks_for(address) == Some(I2cAction::Read { address, register: 0xf7, len: 8 })
            &&& s2.after(sensor, I2cEvent::Read(Ok(raw))) == Bme280Sample::Finished(
                Ok(sensor.reading(raw@)),
            )
            &&& s2.completes(I2cEvent::Read(Ok(raw)))
            &&& s0.after(sensor, I2cEvent::Written(Err(fault))) == failed
            &&& s2.after(sensor, I2cEvent::Read(Err(fault))) == failed
        }),
        forall|sample: Bme280Sample|
            (#[trigger] sample.asks_for(sensor.address)) matches Some(action) ==> (!answers(
                action,
                event,
            ) ==> sample.after(sensor, event) == sample),
{
}

/// The data registers hold the pressure and the temperature as 20-bit numbers and the humidity as a
/// 16-bit one, high byte first, the low half of the third byte unused. The temperature is
/// compensated first, and the pressure and the humidity at that temperature. Nothing else of the
/// sensor changes.
pub proof fn law_data_registers_are_decoded(
    sensor: Bme280,
    raw: Seq<u8>,
    adc_p: int,
    adc_t: int,
    adc_h: int,
)
    requires
        raw.len() == 8,
        (raw[0] * 65_536 + raw[1] * 256 + raw[2]) / 16 == adc_p,
        (raw[3] * 65_536 + raw[4] * 256 + raw[5]) / 16 == adc_t,
        raw[6] * 256 + raw[7] == adc_h,
    ensures
        ({
            let after = sensor.sampled(raw);
            let t_fine = sensor.calibration.fine_temperature(adc_t);
            let reading = sensor.reading(raw);
            &&& after.calibration.t_fine == t_fine
            &&& after == Bme280 {
                calibration: Calibration {
                    t_fine: after.calibration.t_fine,
                    ..sensor.calibration
                },
                ..sensor
            }
            &&& reading.temperature_centidegrees == Calibration::temperature(t_fine)
            &&& reading.pressure_pa == after.calibration.pressure(adc_p)
            &&& reading.humidity_q1024 == if sensor.is_bmp280 {
                0
            } else {
                after.calibration.humidity(adc_h)
            }
            &&& reading.is_bmp280 == sensor.is_bmp280
        }),
{
    assert(adc20(raw, 0) == adc_p);
    assert(adc20(raw, 3) == adc_t);
    assert(adc16(raw, 6) == adc_h);
}

/// The average of some samples is their sum divided by their number, rounded toward zero, for the
/// temperature, the pressure and the humidity. Without samples there is none.
pub proof fn law_air_average_is_the_mean(readings: Seq<Reading>)
    requires
        readings.len() <= u32::MAX,
    ensures
        readings.len() == 0 <==> summed(readings).mean() is None,
        readings.len() > 0 ==> (summed(readings).mean() matches Some(mean) && {
            let n = readings.len() as int;
            &&& crate::arith::is_mean(
                mean.temperature_centidegrees as int,
                crate::arith::total(
                    readings.map_values(|r: Reading| r.temperature_centidegrees as int),
                ),
                n,
            )
            &&& crate::arith::is_mean(
                mean.pressure_pa as int,
                crate::arith::total(readings.map_values(|r: Reading| r.pressure_pa as int)),
                n,
            )
            &&& crate::arith::is_mean(
                mean.humidity_q1024 as int,
                crate::arith::total(readings.map_values(|r: Reading| r.humidity_q1024 as int)),
                n,
            )
            &&& mean.is_bmp280 == readings.last().is_bmp280
        }),
{
    lemma_sums_are_bounded(readings, lowest(), highest());
    lemma_sums_are_totals(readings);
    let sum = summed(readings);
    let n = readings.len() as int;
    if n > 0 {
        lemma_mean_in_range(sum.temperature_sum as int, n, i32::MIN as int, i32::MAX as int);
        lemma_mean_in_range(sum.pressure_sum as int, n, 0, u32::MAX as int);
        lemma_mean_in_range(sum.humidity_sum as int, n, 0, u32::MAX as int);
        crate::arith::lemma_quotient_is_mean(sum.temperature_sum as int, n);
        crate::arith::lemma_quotient_is_mean(sum.pressure_sum as int, n);
        crate::arith::lemma_quotient_is_mean(sum.humidity_sum as int, n);
    }
}

spec fn lowest() -> Reading {
    Reading {
        temperature_centidegrees: i32::MIN,
        pressure_pa: 0,
        humidity_q1024: 0,
        is_bmp280: false,
    }
}

spec fn highest() -> Reading {
    Reading {
        temperature_centidegrees: i32::MAX,
        pressure_pa: u32::MAX,
        humidity_q1024: u32::MAX,
        is_bmp280: false,
    }
}

proof fn lemma_sums_are_totals(readings: Seq<Reading>)
    requires
        readings.len() <= u32::MAX,
    ensures
        summed(readings).temperature_sum == crate::arith::total(
            readings.map_values(|r: Reading| r.temperature_centidegrees as int),
        ),
        summed(readings).pressure_sum == crate::arith::total(
            readings.map_values(|r: Reading| r.pressure_pa as int),
        ),
        summed(readings).humidity_sum == crate::arith::total(
            readings.map_values(|r: Reading| r.humidity_q1024 as int),
        ),
    decreases readings.len(),
{
    if readings.len() > 0 {
        let front = readings.drop_last();
        let n = readings.len() as int;
        lemma_sums_are_totals(front);
        lemma_sums_are_bounded(front, lowest(), highest());
        crate::arith::lemma_product_fits(i32::MIN as int, n);
        crate::arith::lemma_product_fits(i32::MAX as int, n);
        crate::arith::lemma_product_fits(u32::MAX as int, n);
        assert(readings.map_values(|r: Reading| r.temperature_centidegrees as int).drop_last()
            =~= front.map_values(|r: Reading| r.temperature_centidegrees as int));
        assert(readings.map_values(|r: Reading| r.pressure_pa as int).drop_last()
            =~= front.map_values(|r: Reading| r.pressure_pa as int));
        assert(readings.map_values(|r: Reading| r.humidity_q1024 as int).drop_last()
            =~= front.map_values(|r: Reading| r.humidity_q1024 as int));
    }
}

/// The rail is on for ten seconds: the phase settles for a second and a half, starts the sensor at
/// 0x76 or 0x77, takes a sample every two seconds, and once its time is up hands out the average and
/// how many samples it is of. A sensor that does not start is measured nothing of.
pub proof fn law_air_phase_samples_until_its_time_is_up(
    before: Bme280Phase,
    event: Bme280PhaseEvent,
    now: Instant,
)
    ensures
        ({
            let after = before.after(event, now);
            let is_ready = match (before.step, event) {
                (Bme280PhaseStep::Init { .. }, Bme280PhaseEvent::Started { ok: true }) => true,
                (Bme280PhaseStep::Pause { .. }, Bme280PhaseEvent::Slept) => true,
                _ => false,
            };
            &&& before.step is PowerOn && event is PoweredOn ==> after.step == (
            Bme280PhaseStep::Settle { ms: 1_500 }) && after.deadline == now.plus_ms(10_000)
            &&& !(before.step is PowerOn && event is PoweredOn) ==> after.deadline
                == before.deadline
            &&& before.step is Settle && event is Slept ==> (
            after.step matches Bme280PhaseStep::Init { addresses } && addresses@ == seq![
                0x76u8,
                0x77,
            ])
            &&& before.step is Init && event == (Bme280PhaseEvent::Started { ok: false })
                ==> after.step == (Bme280PhaseStep::PowerOff { average: None, samples: 0 })
            &&& is_ready && now.ticks < before.deadline.ticks ==> after.step is Sample
            &&& is_ready && now.ticks >= before.deadline.ticks ==> after.step == (
            Bme280PhaseStep::PowerOff {
                average: before.average.mean(),
                samples: before.average.count,
            })
            &&& before.step is Sample && event is Sampled ==> after.step == (
            Bme280PhaseStep::Pause { ms: 2_000 })
            &&& event is PoweredOff ==> (
            before.step matches Bme280PhaseStep::PowerOff { average, .. } ==> after.step == (
            Bme280PhaseStep::Ended { average }))
        }),
{
    assert(BME280_ADDRESSES@ =~= seq![0x76u8, 0x77]);
}

/// An event that does not answer what the phase asked for changes nothing.
pub proof fn law_air_phase_waits_for_its_answer(
    before: Bme280Phase,
    event: Bme280PhaseEvent,
    now: Instant,
)
    requires
        match before.step {
            Bme280PhaseStep::PowerOn => event !is PoweredOn,
            Bme280PhaseStep::Settle { .. } => event !is Slept,
            Bme280PhaseStep::Init { .. } => event !is Started,
            Bme280PhaseStep::Sample => event !is Sampled,
            Bme280PhaseStep::Pause { .. } => event !is Slept,
            Bme280PhaseStep::PowerOff { .. } => event !is PoweredOff,
            Bme280PhaseStep::Ended { .. } => true,
        },
    ensures
        before.after(event, now) == before,
{
}

/// A sample that was taken is added to the average once. One that failed, and any other event, leaves
/// the average as it was.
pub proof fn law_air_phase_averages_what_was_sampled(
    before: Bme280Phase,
    event: Bme280PhaseEvent,
    now: Instant,
)
    requires
        before.wf(),
        before.has_room_for(event),
    ensures
        ({
            let after = before.after(event, now).average;
            match (before.step, event) {
                (Bme280PhaseStep::Sample, Bme280PhaseEvent::Sampled(Ok(reading))) => {
                    &&& after.count == before.average.count + 1
                    &&& after.temperature_sum == before.average.temperature_sum
                        + reading.temperature_centidegrees
                    &&& after.pressure_sum == before.average.pressure_sum + reading.pressure_pa
                    &&& after.humidity_sum == before.average.humidity_sum + reading.humidity_q1024
                    &&& after.is_bmp280 == reading.is_bmp280
                },
                _ => after == before.average,
            }
        }),
{
    let n = before.average.count + 1;
    crate::arith::lemma_one_more(i32::MIN as int, n);
    crate::arith::lemma_one_more(i32::MAX as int, n);
    crate::arith::lemma_one_more(u32::MAX as int, n);
    if before.average.count < u32::MAX {
        crate::arith::lemma_product_fits(i32::MIN as int, n);
        crate::arith::lemma_product_fits(i32::MAX as int, n);
        crate::arith::lemma_product_fits(u32::MAX as int, n);
    }
}

/// An air average is shown in degrees with one decimal and the sign, in hectopascal with two, and in
/// percent with one, all cut off, not rounded. A BMP280 shows no humidity.
pub proof fn law_air_average_is_shown(
    address: u8,
    reading: Reading,
    samples: u32,
    degrees: nat,
    degree_tenth: nat,
    degree_rest: nat,
    hectopascal: nat,
    pascal: nat,
    percent: nat,
    percent_tenth: nat,
)
    requires
        degree_tenth < 10,
        degree_rest < 10,
        pascal < 100,
        percent_tenth < 10,
        reading.temperature_centidegrees == degrees * 100 + degree_tenth * 10 + degree_rest || (
        reading.temperature_centidegrees < 0 && reading.temperature_centidegrees == -(degrees * 100
            + degree_tenth * 10 + degree_rest)),
        reading.pressure_pa == hectopascal * 100 + pascal,
        (percent * 10 + percent_tenth) * 1024 <= reading.humidity_q1024 * 10 < (percent * 10
            + percent_tenth + 1) * 1024,
    ensures
        bme280_average_text(address, reading, samples) == "[bme ] avg "@ + crate::text::decimal(
            samples as nat,
        ) + " samples addr=0x"@ + crate::text::upper_hex(address) + " temp="@ + (
        if reading.temperature_centidegrees < 0 {
            "-"@
        } else {
            ""@
        }) + crate::text::decimal(degrees) + "."@ + crate::text::decimal(degree_tenth)
            + "C pressure="@ + crate::text::decimal(hectopascal) + "."@ + crate::text::two_digits(
            pascal as int,
        ) + "hPa humidity="@ + (if reading.is_bmp280 {
            "n/a"@
        } else {
            crate::text::decimal(percent) + "."@ + crate::text::decimal(percent_tenth) + "%"@
        }),
{
    let t = crate::text::magnitude(reading.temperature_centidegrees as int);
    let h = reading.humidity_q1024 * 10 / 1024;
    assert(t / 100 == degrees && t % 100 / 10 == degree_tenth);
    assert(reading.pressure_pa / 100 == hectopascal && reading.pressure_pa % 100 == pascal);
    assert(h / 10 == percent && h % 10 == percent_tenth);
}

/// The phase starts by switching the rail on, with no samples: their sums and their number are zero,
/// and there is no average.
pub proof fn law_air_phase_starts_with_nothing(now: Instant)
    ensures
        ({
            let start = Bme280Phase::begun(now);
            let sum = start.average;
            &&& start.step is PowerOn
            &&& sum.count == 0 && sum.temperature_sum == 0 && sum.pressure_sum == 0
                && sum.humidity_sum == 0
            &&& sum.mean() is None
            &&& sum == summed(Seq::<Reading>::empty())
        }),
{
}

/// How the log shows an error tells which it is.
pub proof fn law_air_errors_are_shown_by_name(fault: I2cError, id: u8)
    ensures
        Error::I2c(fault).shown() == "I2c("@ + fault.shown() + ")"@,
        Error::Missing.shown() == "Missing"@,
        Error::UnexpectedChipId(id).shown() == "UnexpectedChipId(0x"@ + crate::text::upper_hex(id)
            + ")"@,
{
}

/// Sums of any number of samples are averaged by dividing them by that number, toward zero.
pub proof fn law_air_sums_are_divided_by_their_number(sum: Bme280Average)
    requires
        sum.wf(),
        sum.count > 0,
    ensures
        sum.mean() matches Some(mean) && crate::arith::is_mean(
            mean.temperature_centidegrees as int,
            sum.temperature_sum as int,
            sum.count as int,
        ) && crate::arith::is_mean(
            mean.pressure_pa as int,
            sum.pressure_sum as int,
            sum.count as int,
        ) && crate::arith::is_mean(
            mean.humidity_q1024 as int,
            sum.humidity_sum as int,
            sum.count as int,
        ) && mean.is_bmp280 == sum.is_bmp280,
{
    let n = sum.count as int;
    lemma_mean_in_range(sum.temperature_sum as int, n, i32::MIN as int, i32::MAX as int);
    lemma_mean_in_range(sum.pressure_sum as int, n, 0, u32::MAX as int);
    lemma_mean_in_range(sum.humidity_sum as int, n, 0, u32::MAX as int);
    crate::arith::lemma_quotient_is_mean(sum.temperature_sum as int, n);
    crate::arith::lemma_quotient_is_mean(sum.pressure_sum as int, n);
    crate::arith::lemma_quotient_is_mean(sum.humidity_sum as int, n);
}

} // verus!
