//! The ZTS3000 soil sensor: Modbus frames, averaging and the measurement phase.
use vstd::prelude::*;
use vstd::string::*;

use crate::arith::lemma_mean_in_range;
use crate::bytes::{i16_from_le, u16_from_le};
use crate::clock::Instant;
use crate::config::{RS485_POWER_SETTLE_MS, SENSOR_ACTIVE_PHASE_MS, SENSOR_SAMPLE_INTERVAL_MS};
use crate::text::push_decimal;
use crate::uart::{UartError, UartRead};

verus! {

/// Modbus request that reads the humidity and temperature registers of station 1.
pub const ZTS3000_READ_HUM_TEMP: [u8; 8] = [0x01, 0x03, 0x00, 0x00, 0x00, 0x02, 0xc4, 0x0b];

pub const ZTS3000_RESPONSE_LEN: usize = 9;

/// How long the sensor may take to answer, in milliseconds.
pub const ZTS3000_RESPONSE_TIMEOUT_MS: u64 = 700;

/// One soil sample, in tenths of a percent and of a degree.
#[derive(Clone, Copy, Debug, PartialEq, Eq, Structural)]
pub struct Zts3000Reading {
    pub humidity_tenths: u16,
    pub temperature_tenths: i16,
}

/// Why a response frame is refused.
#[derive(Clone, Copy, Debug, PartialEq, Eq, Structural)]
pub enum Zts3000ParseError {
    ShortFrame,
    LongFrame,
    WrongAddress,
    WrongFunction,
    WrongByteCount,
    Crc,
}

impl Zts3000ParseError {
    /// How the log shows the error.
    pub open spec fn shown(self) -> Seq<char> {
        match self {
            Zts3000ParseError::ShortFrame => "ShortFrame"@,
            Zts3000ParseError::LongFrame => "LongFrame"@,
            Zts3000ParseError::WrongAddress => "WrongAddress"@,
            Zts3000ParseError::WrongFunction => "WrongFunction"@,
            Zts3000ParseError::WrongByteCount => "WrongByteCount"@,
            Zts3000ParseError::Crc => "Crc"@,
        }
    }

    /// How the log shows the error.
    pub fn name(&self) -> (r: &'static str)
        ensures
            r@ == self.shown(),
    {
        match self {
            Zts3000ParseError::ShortFrame => "ShortFrame",
            Zts3000ParseError::LongFrame => "LongFrame",
            Zts3000ParseError::WrongAddress => "WrongAddress",
            Zts3000ParseError::WrongFunction => "WrongFunction",
            Zts3000ParseError::WrongByteCount => "WrongByteCount",
            Zts3000ParseError::Crc => "Crc",
        }
    }
}

/// Why a sample could not be taken.
#[derive(Clone, Copy, Debug, PartialEq, Eq, Structural)]
pub enum Zts3000ReadError {
    Uart(UartError),
    Timeout,
    Parse(Zts3000ParseError),
}

impl Zts3000ReadError {
    /// How the log shows the error.
    pub open spec fn shown(self) -> Seq<char> {
        match self {
            Zts3000ReadError::Uart(err) => "Uart("@ + err.shown() + ")"@,
            Zts3000ReadError::Timeout => "Timeout"@,
            Zts3000ReadError::Parse(err) => "Parse("@ + err.shown() + ")"@,
        }
    }

    /// How the log shows the error.
    pub fn text(&self) -> (r: String)
        ensures
            r@ == self.shown(),
    {
        match self {
            Zts3000ReadError::Uart(err) => {
                let mut text = String::from_str("Uart(");
                text.append(err.name());
                text.append(")");
                text
            },
            Zts3000ReadError::Timeout => String::from_str("Timeout"),
            Zts3000ReadError::Parse(err) => {
                let mut text = String::from_str("Parse(");
                text.append(err.name());
                text.append(")");
                text
            },
        }
    }
}

/// One bit of the Modbus checksum: the register moves right and the bit that leaves it, if set,
/// feeds back the polynomial.
pub open spec fn crc_bit(crc: u16) -> u16 {
    if crc & 1 != 0 {
        (crc >> 1) ^ 0xa001
    } else {
        crc >> 1
    }
}

/// `n` bits of the Modbus checksum.
pub open spec fn crc_bits(crc: u16, n: nat) -> u16
    decreases n,
{
    if n == 0 {
        crc
    } else {
        crc_bit(crc_bits(crc, (n - 1) as nat))
    }
}

/// The Modbus checksum register after `bytes`, when it held `crc` before them.
pub open spec fn crc_from(crc: u16, bytes: Seq<u8>) -> u16
    decreases bytes.len(),
{
    if bytes.len() == 0 {
        crc
    } else {
        crc_bits(crc_from(crc, bytes.drop_last()) ^ (bytes.last() as u16), 8)
    }
}

/// CRC-16/MODBUS of `bytes`.
pub open spec fn crc16(bytes: Seq<u8>) -> u16 {
    crc_from(0xffff, bytes)
}

/// The last two bytes of `frame` are the checksum of the bytes before them, low byte first.
pub open spec fn crc_valid(frame: Seq<u8>) -> bool {
    frame.len() >= 2 && crc16(frame.subrange(0, frame.len() - 2)) == crate::bytes::le16(
        frame[frame.len() - 2],
        frame[frame.len() - 1],
    )
}

/// What a response frame says.
pub open spec fn parsed_response(frame: Seq<u8>) -> Result<Zts3000Reading, Zts3000ParseError> {
    if frame.len() < ZTS3000_RESPONSE_LEN {
        Err(Zts3000ParseError::ShortFrame)
    } else if frame.len() > ZTS3000_RESPONSE_LEN {
        Err(Zts3000ParseError::LongFrame)
    } else if !crc_valid(frame) {
        Err(Zts3000ParseError::Crc)
    } else if frame[0] != 0x01 {
        Err(Zts3000ParseError::WrongAddress)
    } else if frame[1] != 0x03 {
        Err(Zts3000ParseError::WrongFunction)
    } else if frame[2] != 0x04 {
        Err(Zts3000ParseError::WrongByteCount)
    } else {
        Ok(
            Zts3000Reading {
                humidity_tenths: crate::bytes::le16(frame[4], frame[3]) as u16,
                temperature_tenths: crate::bytes::signed(
                    crate::bytes::le16(frame[6], frame[5]),
                    0x8000,
                ) as i16,
            },
        )
    }
}

/// CRC-16/MODBUS of a byte string.
pub fn modbus_crc16(bytes: &[u8]) -> (r: u16)
    ensures
        r == crc16(bytes@),
{
    let mut crc: u16 = 0xffff;
    for i in 0..bytes.len()
        invariant
            crc == crc16(bytes@.subrange(0, i as int)),
    {
        let ghost before = crc;
        crc = crc ^ (bytes[i] as u16);
        let ghost mixed = crc;
        for n in 0..8u32
            invariant
                crc == crc_bits(mixed, n as nat),
        {
            if crc & 0x0001 != 0 {
                crc = (crc >> 1) ^ 0xa001;
            } else {
                crc = crc >> 1;
            }
        }
        assert(bytes@.subrange(0, i + 1).drop_last() =~= bytes@.subrange(0, i as int));
    }
    assert(bytes@.subrange(0, bytes@.len() as int) =~= bytes@);
    crc
}

/// Whether a frame ends in the checksum of what stands before it.
pub fn modbus_crc_is_valid(frame: &[u8]) -> (r: bool)
    ensures
        r == crc_valid(frame@),
{
    if frame.len() < 2 {
        return false;
    }
    let data_len: usize = frame.len() - 2;
    let expected = modbus_crc16(vstd::slice::slice_subrange(frame, 0, data_len));
    let actual = u16_from_le(frame[data_len], frame[data_len + 1]);
    expected == actual
}

/// Decodes a response of the soil sensor.
pub fn parse_zts3000_response(frame: &[u8]) -> (r: Result<Zts3000Reading, Zts3000ParseError>)
    ensures
        r == parsed_response(frame@),
{
    if frame.len() < ZTS3000_RESPONSE_LEN {
        return Err(Zts3000ParseError::ShortFrame);
    }
    if frame.len() > ZTS3000_RESPONSE_LEN {
        return Err(Zts3000ParseError::LongFrame);
    }
    if !modbus_crc_is_valid(frame) {
        return Err(Zts3000ParseError::Crc);
    }
    if frame[0] != 0x01 {
        return Err(Zts3000ParseError::WrongAddress);
    }
    if frame[1] != 0x03 {
        return Err(Zts3000ParseError::WrongFunction);
    }
    if frame[2] != 0x04 {
        return Err(Zts3000ParseError::WrongByteCount);
    }
    Ok(
        Zts3000Reading {
            humidity_tenths: u16_from_le(frame[4], frame[3]),
            temperature_tenths: i16_from_le(frame[6], frame[5]),
        },
    )
}

/// Samples added up for averaging.
#[derive(Clone, Copy, Debug, PartialEq, Eq, Structural)]
pub struct Zts3000Average {
    pub humidity_sum: u32,
    pub temperature_sum: i32,
    pub count: u32,
}

impl Zts3000Average {
    /// No samples.
    pub open spec fn none() -> Zts3000Average {
        Zts3000Average { humidity_sum: 0, temperature_sum: 0, count: 0 }
    }

    /// The sums are sums of `count` samples.
    pub open spec fn wf(self) -> bool {
        &&& self.count <= i32::MAX
        &&& self.humidity_sum <= 0xffff * self.count
        &&& -0x8000 * self.count <= self.temperature_sum <= 0x7fff * self.count
    }

    /// The sums stay in their ranges when `reading` is added.
    pub open spec fn has_room_for(self, reading: Zts3000Reading) -> bool {
        &&& self.count < i32::MAX
        &&& self.humidity_sum + reading.humidity_tenths <= u32::MAX
        &&& i32::MIN <= self.temperature_sum + reading.temperature_tenths <= i32::MAX
    }

    /// These samples and one more.
    pub open spec fn with(self, reading: Zts3000Reading) -> Zts3000Average {
        Zts3000Average {
            humidity_sum: (self.humidity_sum + reading.humidity_tenths) as u32,
            temperature_sum: (self.temperature_sum + reading.temperature_tenths) as i32,
            count: (self.count + 1) as u32,
        }
    }

    /// The averages, rounded toward zero; none without samples.
    pub open spec fn mean(self) -> Option<Zts3000Reading> {
        if self.count == 0 {
            None
        } else {
            Some(
                Zts3000Reading {
                    humidity_tenths: (self.humidity_sum as int / self.count as int) as u16,
                    temperature_tenths: crate::arith::trunc_div(
                        self.temperature_sum as int,
                        self.count as int,
                    ) as i16,
                },
            )
        }
    }

    /// Whether one more sample fits into the sums.
    pub fn has_room(&self, reading: &Zts3000Reading) -> (r: bool)
        ensures
            r == self.has_room_for(*reading),
    {
        let temperature = self.temperature_sum as i64 + reading.temperature_tenths as i64;
        self.count < 0x7fff_ffff && self.humidity_sum as u64 + reading.humidity_tenths as u64
            <= 0xffff_ffff && -0x8000_0000 <= temperature && temperature <= 0x7fff_ffff
    }

    /// Adds a sample.
    pub fn add(&mut self, reading: Zts3000Reading)
        requires
            old(self).wf(),
            old(self).has_room_for(reading),
        ensures
            *final(self) == old(self).with(reading),
            final(self).wf(),
            final(self).count == old(self).count + 1,
            final(self).humidity_sum == old(self).humidity_sum + reading.humidity_tenths,
            final(self).temperature_sum == old(self).temperature_sum + reading.temperature_tenths,
    {
        self.humidity_sum = self.humidity_sum + reading.humidity_tenths as u32;
        self.temperature_sum = self.temperature_sum + reading.temperature_tenths as i32;
        self.count = self.count + 1;
    }

    /// The average of the samples added.
    pub fn finish(&self) -> (r: Option<Zts3000Reading>)
        requires
            self.wf(),
        ensures
            r == self.mean(),
    {
        if self.count == 0 {
            return None;
        }
        proof {
            lemma_mean_in_range(self.humidity_sum as int, self.count as int, 0, 0xffff);
            lemma_mean_in_range(self.temperature_sum as int, self.count as int, -0x8000, 0x7fff);
        }
        Some(
            Zts3000Reading {
                humidity_tenths: (self.humidity_sum / self.count) as u16,
                temperature_tenths: (self.temperature_sum / (self.count as i32)) as i16,
            },
        )
    }
}

impl Default for Zts3000Average {
    fn default() -> (r: Self)
        ensures
            r == Zts3000Average::none(),
            r.wf(),
    {
        Zts3000Average { humidity_sum: 0, temperature_sum: 0, count: 0 }
    }
}

/// What to do next to take one sample.
#[derive(Clone, Copy, Debug, PartialEq, Eq)]
pub enum Zts3000ReadStep {
    Write { request: [u8; 8] },
    Flush,
    Receive { timeout_ms: u64 },
    Finished(Result<Zts3000Reading, Zts3000ReadError>),
}

/// Starts to take a sample: the request is written first.
pub fn read_zts3000() -> (r: Zts3000ReadStep)
    ensures
        r matches Zts3000ReadStep::Write { request } && request@ == ZTS3000_READ_HUM_TEMP@,
{
    Zts3000ReadStep::Write { request: ZTS3000_READ_HUM_TEMP }
}

impl Zts3000ReadStep {
    /// The step after the request was written, or could not be.
    pub open spec fn after_writing(result: Result<(), UartError>) -> Zts3000ReadStep {
        match result {
            Ok(_) => Zts3000ReadStep::Flush,
            Err(err) => Zts3000ReadStep::Finished(Err(Zts3000ReadError::Uart(err))),
        }
    }

    /// The step after the request has left the port, or could not.
    pub open spec fn after_flushing(result: Result<(), UartError>) -> Zts3000ReadStep {
        match result {
            Ok(_) => Zts3000ReadStep::Receive { timeout_ms: ZTS3000_RESPONSE_TIMEOUT_MS },
            Err(err) => Zts3000ReadStep::Finished(Err(Zts3000ReadError::Uart(err))),
        }
    }

    /// What the sample comes to once the wait for the response is over.
    pub open spec fn outcome(read: UartRead) -> Result<Zts3000Reading, Zts3000ReadError> {
        match read {
            UartRead::Received(frame) => match parsed_response(frame@) {
                Ok(reading) => Ok(reading),
                Err(err) => Err(Zts3000ReadError::Parse(err)),
            },
            UartRead::Failed(err) => Err(Zts3000ReadError::Uart(err)),
            UartRead::TimedOut => Err(Zts3000ReadError::Timeout),
        }
    }

    /// The request was written, or could not be.
    pub fn written(result: Result<(), UartError>) -> (r: Zts3000ReadStep)
        ensures
            r == Zts3000ReadStep::after_writing(result),
            r == match result {
                Ok(_) => Zts3000ReadStep::Flush,
                Err(err) => Zts3000ReadStep::Finished(Err(Zts3000ReadError::Uart(err))),
            },
    {
        match result {
            Ok(_) => Zts3000ReadStep::Flush,
            Err(err) => Zts3000ReadStep::Finished(Err(Zts3000ReadError::Uart(err))),
        }
    }

    /// The request has left the port, or could not.
    pub fn flushed(result: Result<(), UartError>) -> (r: Zts3000ReadStep)
        ensures
            r == Zts3000ReadStep::after_flushing(result),
            r == match result {
                Ok(_) => Zts3000ReadStep::Receive { timeout_ms: ZTS3000_RESPONSE_TIMEOUT_MS },
                Err(err) => Zts3000ReadStep::Finished(Err(Zts3000ReadError::Uart(err))),
            },
    {
        match result {
            Ok(_) => Zts3000ReadStep::Receive { timeout_ms: ZTS3000_RESPONSE_TIMEOUT_MS },
            Err(err) => Zts3000ReadStep::Finished(Err(Zts3000ReadError::Uart(err))),
        }
    }

    /// The wait for the response is over.
    pub fn received(read: &UartRead) -> (r: Zts3000ReadStep)
        ensures
            r == Zts3000ReadStep::Finished(Zts3000ReadStep::outcome(*read)),
            r == Zts3000ReadStep::Finished(
                match *read {
                    UartRead::Received(frame) => match parsed_response(frame@) {
                        Ok(reading) => Ok(reading),
                        Err(err) => Err(Zts3000ReadError::Parse(err)),
                    },
                    UartRead::Failed(err) => Err(Zts3000ReadError::Uart(err)),
                    UartRead::TimedOut => Err(Zts3000ReadError::Timeout),
                },
            ),
    {
        Zts3000ReadStep::Finished(
            match read {
                UartRead::Received(frame) => match parse_zts3000_response(frame.as_slice()) {
                    Ok(reading) => Ok(reading),
                    Err(err) => Err(Zts3000ReadError::Parse(err)),
                },
                UartRead::Failed(err) => Err(Zts3000ReadError::Uart(*err)),
                UartRead::TimedOut => Err(Zts3000ReadError::Timeout),
            },
        )
    }
}

/// What to do next in the measurement phase of the soil sensor.
#[derive(Clone, Copy, Debug, PartialEq, Eq, Structural)]
pub enum Zts3000PhaseStep {
    /// Switch the sensor rail on.
    PowerOn,
    /// Sleep while the sensor settles, or between two samples.
    Wait { ms: u64 },
    /// Take a sample.
    Sample,
    /// Switch the sensor rail off, with this average of so many samples.
    PowerOff { average: Option<Zts3000Reading>, samples: u32 },
    /// The phase is over with this average.
    Ended { average: Option<Zts3000Reading> },
}

/// What came of a step.
#[derive(Clone, Copy, Debug, PartialEq, Eq)]
pub enum Zts3000PhaseEvent {
    PoweredOn,
    Slept,
    Sampled(Result<Zts3000Reading, Zts3000ReadError>),
    PoweredOff,
}

/// The measurement phase of the soil sensor: samples are taken until the deadline and averaged.
#[derive(Clone, Copy, Debug, PartialEq, Eq, Structural)]
pub struct Zts3000Phase {
    pub deadline: Instant,
    pub average: Zts3000Average,
    pub step: Zts3000PhaseStep,
}

impl Zts3000Phase {
    pub open spec fn wf(self) -> bool {
        self.average.wf()
    }

    /// The sum of the samples has room for what `event` brings.
    pub open spec fn has_room_for(self, event: Zts3000PhaseEvent) -> bool {
        event matches Zts3000PhaseEvent::Sampled(Ok(reading)) ==> self.average.has_room_for(reading)
    }

    /// The phase at `now`, once the sensor is ready for a sample.
    pub open spec fn ready(self, now: Instant) -> Zts3000Phase {
        let step = if now.ticks < self.deadline.ticks {
            Zts3000PhaseStep::Sample
        } else {
            Zts3000PhaseStep::PowerOff {
                average: self.average.mean(),
                samples: self.average.count,
            }
        };
        Zts3000Phase { step, ..self }
    }

    /// The phase once `event` came at `now`. An event that does not answer what was asked for
    /// changes nothing.
    pub open spec fn after(self, event: Zts3000PhaseEvent, now: Instant) -> Zts3000Phase {
        match (self.step, event) {
            (Zts3000PhaseStep::PowerOn, Zts3000PhaseEvent::PoweredOn) => Zts3000Phase {
                deadline: now.plus_ms(SENSOR_ACTIVE_PHASE_MS as int),
                step: Zts3000PhaseStep::Wait { ms: RS485_POWER_SETTLE_MS },
                ..self
            },
            (Zts3000PhaseStep::Wait { .. }, Zts3000PhaseEvent::Slept) => self.ready(now),
            (Zts3000PhaseStep::Sample, Zts3000PhaseEvent::Sampled(sample)) => Zts3000Phase {
                average: match sample {
                    Ok(reading) => self.average.with(reading),
                    Err(_) => self.average,
                },
                step: Zts3000PhaseStep::Wait { ms: SENSOR_SAMPLE_INTERVAL_MS },
                ..self
            },
            (Zts3000PhaseStep::PowerOff { average, .. }, Zts3000PhaseEvent::PoweredOff) => {
                Zts3000Phase { step: Zts3000PhaseStep::Ended { average }, ..self }
            },
            _ => self,
        }
    }

    /// What was asked for came to `event` at `now`.
    pub fn next(&mut self, event: Zts3000PhaseEvent, now: Instant)
        requires
            old(self).wf(),
            old(self).has_room_for(event),
            now.valid(),
        ensures
            final(self).wf(),
            *final(self) == old(self).after(event, now),
    {
        match (self.step, event) {
            (Zts3000PhaseStep::PowerOn, Zts3000PhaseEvent::PoweredOn) => {
                self.deadline = now.after_millis(SENSOR_ACTIVE_PHASE_MS);
                self.step = Zts3000PhaseStep::Wait { ms: RS485_POWER_SETTLE_MS };
            },
            (Zts3000PhaseStep::Wait { .. }, Zts3000PhaseEvent::Slept) => {
                self.step = if now.reached(self.deadline) {
                    Zts3000PhaseStep::PowerOff {
                        average: self.average.finish(),
                        samples: self.average.count,
                    }
                } else {
                    Zts3000PhaseStep::Sample
                };
            },
            (Zts3000PhaseStep::Sample, Zts3000PhaseEvent::Sampled(sample)) => {
                if let Ok(reading) = sample {
                    self.average.add(reading);
                }
                self.step = Zts3000PhaseStep::Wait { ms: SENSOR_SAMPLE_INTERVAL_MS };
            },
            (Zts3000PhaseStep::PowerOff { average, .. }, Zts3000PhaseEvent::PoweredOff) => {
                self.step = Zts3000PhaseStep::Ended { average };
            },
            _ => {},
        }
    }
}

impl Zts3000Phase {
    /// The phase as it starts: nothing was sampled, and the rail is off.
    pub open spec fn begun(now: Instant) -> Zts3000Phase {
        Zts3000Phase {
            deadline: now,
            average: Zts3000Average::none(),
            step: Zts3000PhaseStep::PowerOn,
        }
    }
}

/// Starts the measurement phase of the soil sensor.
pub fn run_zts3000_phase(now: Instant) -> (r: Zts3000Phase)
    ensures
        r == Zts3000Phase::begun(now),
        r.wf(),
        r == (Zts3000Phase {
            deadline: now,
            average: Zts3000Average::none(),
            step: Zts3000PhaseStep::PowerOn,
        }),
{
    Zts3000Phase {
        deadline: now,
        average: Zts3000Average::default(),
        step: Zts3000PhaseStep::PowerOn,
    }
}

/// Log message of an average soil sample.
pub open spec fn zts3000_average_text(reading: Zts3000Reading, samples: u32) -> Seq<char> {
    let t = crate::text::magnitude(reading.temperature_tenths as int);
    "[rs485] avg "@ + crate::text::decimal(samples as nat) + " samples humidity="@
        + crate::text::decimal((reading.humidity_tenths / 10) as nat) + "."@
        + crate::text::decimal((reading.humidity_tenths % 10) as nat) + "% temperature="@
        + crate::text::sign_text(reading.temperature_tenths as int) + crate::text::decimal(
        (t / 10) as nat,
    ) + "."@
        + crate::text::decimal((t % 10) as nat) + "C"@
}

/// Log message of an average soil sample.
pub fn log_zts3000_average(reading: Zts3000Reading, samples: u32) -> (r: String)
    ensures
        r@ == zts3000_average_text(reading, samples),
{
    let t: u64 = if reading.temperature_tenths < 0 {
        (-(reading.temperature_tenths as i64)) as u64
    } else {
        reading.temperature_tenths as u64
    };
    let mut text = String::from_str("[rs485] avg ");
    push_decimal(&mut text, samples as u64);
    text.append(" samples humidity=");
    push_decimal(&mut text, (reading.humidity_tenths / 10) as u64);
    text.append(".");
    push_decimal(&mut text, (reading.humidity_tenths % 10) as u64);
    text.append("% temperature=");
    if reading.temperature_tenths < 0 {
        text.append("-");
    } else {
        text.append("");
    }
    push_decimal(&mut text, t / 10);
    text.append(".");
    push_decimal(&mut text, t % 10);
    text.append("C");
    text
}

/// A frame whose checksum was appended to it is valid.
pub proof fn law_appended_checksum_is_valid(data: Seq<u8>)
    ensures
        crc_valid(data + crate::bytes::le_bytes(crc16(data) as int, 2)),
{
    reveal_with_fuel(crate::bytes::le_bytes, 3);
    let tail = crate::bytes::le_bytes(crc16(data) as int, 2);
    assert(tail =~= seq![(crc16(data) % 0x100) as u8, (crc16(data) / 0x100) as u8]);
    let frame = data + tail;
    assert(frame.subrange(0, frame.len() - 2) =~= data);
}

/// A valid frame in which one byte was changed is not valid any more.
pub proof fn law_checksum_detects_a_changed_byte(frame: Seq<u8>, at: int, byte: u8)
    requires
        crc_valid(frame),
        0 <= at < frame.len(),
        byte != frame[at],
    ensures
        !crc_valid(frame.update(at, byte)),
{
    let changed = frame.update(at, byte);
    let n = frame.len() - 2;
    if at < n {
        let data = frame.subrange(0, n);
        let other = changed.subrange(0, n);
        assert(other =~= data.update(at, byte));
        lemma_changed_byte_changes_crc(data, at, byte);
    } else {
        assert(changed.subrange(0, n) =~= frame.subrange(0, n));
    }
}

proof fn lemma_crc_bits_injective(x: u16, y: u16, n: nat)
    requires
        x != y,
    ensures
        crc_bits(x, n) != crc_bits(y, n),
    decreases n,
{
    if n > 0 {
        lemma_crc_bits_injective(x, y, (n - 1) as nat);
        let a = crc_bits(x, (n - 1) as nat);
        let b = crc_bits(y, (n - 1) as nat);
        assert(a != b ==> (if a & 1 != 0 {
            (a >> 1) ^ 0xa001
        } else {
            a >> 1
        }) != (if b & 1 != 0 {
            (b >> 1) ^ 0xa001
        } else {
            b >> 1
        })) by (bit_vector);
    }
}

proof fn lemma_changed_byte_changes_crc(data: Seq<u8>, at: int, byte: u8)
    requires
        0 <= at < data.len(),
        byte != data[at],
    ensures
        crc16(data) != crc16(data.update(at, byte)),
    decreases data.len(),
{
    let changed = data.update(at, byte);
    let a = crc16(data.drop_last());
    let b = crc16(changed.drop_last());
    let p = data.last();
    let q = changed.last();
    if at == data.len() - 1 {
        assert(data.drop_last() =~= changed.drop_last());
        assert(p != q ==> a ^ (p as u16) != a ^ (q as u16)) by (bit_vector);
        lemma_crc_bits_injective(a ^ (p as u16), a ^ (q as u16), 8);
    } else {
        assert(data.drop_last().update(at, byte) =~= changed.drop_last());
        lemma_changed_byte_changes_crc(data.drop_last(), at, byte);
        assert(a != b ==> a ^ (p as u16) != b ^ (p as u16)) by (bit_vector);
        lemma_crc_bits_injective(a ^ (p as u16), b ^ (p as u16), 8);
    }
}

/// The sensor is only asked for a sample before the phase is over, and the phase only ends after the
/// rail was switched off.
pub proof fn law_soil_phase_ends_with_the_rail_off(
    before: Zts3000Phase,
    event: Zts3000PhaseEvent,
    now: Instant,
)
    ensures
        before.after(event, now).step is Sample && before.step !is Sample ==> now.ticks
            < before.deadline.ticks,
        before.after(event, now).step is Ended && before.step !is Ended ==> before.step is PowerOff
            && event is PoweredOff,
        before.step is Ended ==> before.after(event, now) == before,
{
}

/// The sum of some samples.
pub open spec fn summed(readings: Seq<Zts3000Reading>) -> Zts3000Average
    decreases readings.len(),
{
    if readings.len() == 0 {
        Zts3000Average::none()
    } else {
        summed(readings.drop_last()).with(readings.last())
    }
}

/// Each value of `a` is at most that of `b`.
pub open spec fn reading_at_most(a: Zts3000Reading, b: Zts3000Reading) -> bool {
    a.humidity_tenths <= b.humidity_tenths && a.temperature_tenths <= b.temperature_tenths
}

/// As many samples as always fit into the sums.
pub const SAMPLES_THAT_FIT: u32 = 0x1_0000;

proof fn lemma_sums_are_bounded(
    readings: Seq<Zts3000Reading>,
    low: Zts3000Reading,
    high: Zts3000Reading,
)
    requires
        readings.len() <= SAMPLES_THAT_FIT,
        forall|i: int|
            0 <= i < readings.len() ==> reading_at_most(low, #[trigger] readings[i])
                && reading_at_most(readings[i], high),
    ensures
        ({
            let sum = summed(readings);
            let n = readings.len();
            &&& sum.count == n
            &&& low.temperature_tenths * n <= sum.temperature_sum <= high.temperature_tenths * n
            &&& low.humidity_tenths * n <= sum.humidity_sum <= high.humidity_tenths * n
        }),
    decreases readings.len(),
{
    if readings.len() > 0 {
        let front = readings.drop_last();
        assert forall|i: int| 0 <= i < front.len() implies reading_at_most(
            low,
            #[trigger] front[i],
        ) && reading_at_most(front[i], high) by {
            assert(front[i] == readings[i]);
        }
        lemma_sums_are_bounded(front, low, high);
        assert(reading_at_most(low, readings[readings.len() - 1]));
        let n = readings.len() as int;
        let lt: int = low.temperature_tenths as int;
        let ht: int = high.temperature_tenths as int;
        let hh: int = high.humidity_tenths as int;
        crate::arith::lemma_one_more(lt, n);
        crate::arith::lemma_one_more(ht, n);
        crate::arith::lemma_one_more(low.humidity_tenths as int, n);
        crate::arith::lemma_one_more(hh, n);
        assert(-0x8000 * n <= lt * n && ht * n <= 0x7fff * n && hh * n <= 0xffff * n)
            by (nonlinear_arith)
            requires
                n >= 0,
                -0x8000 <= lt,
                ht <= 0x7fff,
                hh <= 0xffff,
        ;
    }
}

/// The average of some samples lies between any two bounds that they all lie between.
pub proof fn law_soil_average_lies_between_its_samples(
    readings: Seq<Zts3000Reading>,
    low: Zts3000Reading,
    high: Zts3000Reading,
)
    requires
        0 < readings.len() <= SAMPLES_THAT_FIT,
        forall|i: int|
            0 <= i < readings.len() ==> reading_at_most(low, #[trigger] readings[i])
                && reading_at_most(readings[i], high),
    ensures
        summed(readings).mean() matches Some(mean) && reading_at_most(low, mean)
            && reading_at_most(mean, high),
{
    lemma_sums_are_bounded(readings, low, high);
    let sum = summed(readings);
    let n = readings.len() as int;
    lemma_mean_in_range(
        sum.temperature_sum as int,
        n,
        low.temperature_tenths as int,
        high.temperature_tenths as int,
    );
    lemma_mean_in_range(
        sum.humidity_sum as int,
        n,
        low.humidity_tenths as int,
        high.humidity_tenths as int,
    );
}

/// For every humidity and temperature, the response that carries them is decoded to exactly them:
/// station 1, function 3, four bytes of data, the humidity, the temperature in two's complement, both
/// high byte first, and the checksum, low byte first.
pub proof fn law_response_is_read_back(humidity: u16, temperature: i16)
    ensures
        ({
            let bits = if temperature < 0 {
                temperature + 65_536
            } else {
                temperature as int
            };
            let data = seq![
                0x01u8,
                0x03,
                0x04,
                (humidity / 256) as u8,
                (humidity % 256) as u8,
                (bits / 256) as u8,
                (bits % 256) as u8,
            ];
            let crc = crc16(data);
            parsed_response(data + seq![(crc % 256) as u8, (crc / 256) as u8]) == Ok::<
                Zts3000Reading,
                Zts3000ParseError,
            >(Zts3000Reading { humidity_tenths: humidity, temperature_tenths: temperature })
        }),
{
    let bits = if temperature < 0 {
        temperature + 65_536
    } else {
        temperature as int
    };
    let data = seq![
        0x01u8,
        0x03,
        0x04,
        (humidity / 256) as u8,
        (humidity % 256) as u8,
        (bits / 256) as u8,
        (bits % 256) as u8,
    ];
    let crc = crc16(data);
    let frame = data + seq![(crc % 256) as u8, (crc / 256) as u8];
    assert(frame.subrange(0, 7) =~= data);
}

/// A frame is decoded if and only if it is nine bytes long, ends in its checksum and starts as a
/// response does. Otherwise the first of these faults is told, in this order: length, checksum,
/// station, function, count of bytes.
pub proof fn law_faulty_response_is_refused(frame: Seq<u8>)
    ensures
        frame.len() < 9 <==> parsed_response(frame) == Err::<Zts3000Reading, _>(
            Zts3000ParseError::ShortFrame,
        ),
        frame.len() > 9 <==> parsed_response(frame) == Err::<Zts3000Reading, _>(
            Zts3000ParseError::LongFrame,
        ),
        frame.len() == 9 && !crc_valid(frame) <==> parsed_response(frame) == Err::<
            Zts3000Reading,
            _,
        >(Zts3000ParseError::Crc),
        frame.len() == 9 && crc_valid(frame) && frame[0] != 1 <==> parsed_response(frame) == Err::<
            Zts3000Reading,
            _,
        >(Zts3000ParseError::WrongAddress),
        frame.len() == 9 && crc_valid(frame) && frame[0] == 1 && frame[1] != 3 <==> parsed_response(
            frame,
        ) == Err::<Zts3000Reading, _>(Zts3000ParseError::WrongFunction),
        frame.len() == 9 && crc_valid(frame) && frame[0] == 1 && frame[1] == 3 && frame[2] != 4
            <==> parsed_response(frame) == Err::<Zts3000Reading, _>(
            Zts3000ParseError::WrongByteCount,
        ),
{
}

/// A frame is valid if and only if it has two bytes more than some data, and they are the checksum
/// of the data, low byte first.
pub proof fn law_valid_frame_ends_in_its_checksum(data: Seq<u8>, low: u8, high: u8)
    ensures
        crc_valid(data.push(low).push(high)) <==> low + 256 * high == crc16(data),
        !crc_valid(Seq::<u8>::empty()),
        !crc_valid(seq![low]),
{
    let frame = data.push(low).push(high);
    assert(frame.subrange(0, frame.len() - 2) =~= data);
}

/// The checksum is CRC-16/MODBUS. It starts at 0xffff and takes the bits of each byte, the lowest
/// first: a step is undone by moving the register left, and where the bit that left it was set, by
/// taking the polynomial 0xa001 out before.
pub proof fn law_checksum_is_crc_modbus(data: Seq<u8>, byte: u8, register: u16, bits: nat)
    ensures
        crc16(Seq::<u8>::empty()) == 0xffff,
        crc16(data.push(byte)) == crc_bits(crc16(data) ^ (byte as u16), 8),
        crc_bits(register, 0) == register,
        crc_bits(register, bits + 1) == crc_bit(crc_bits(register, bits)),
        register % 2 == 0 ==> 2 * crc_bit(register) == register,
        register % 2 == 1 ==> 2 * (crc_bit(register) ^ 0xa001) + 1 == register,
{
    assert(data.push(byte).drop_last() =~= data);
    let moved = register >> 1;
    assert(register & 1 == register % 2 && moved == register / 2 && (moved ^ 0xa001) ^ 0xa001
        == moved) by (bit_vector)
        requires
            moved == register >> 1,
    ;
}

/// A frame that ends in its checksum leaves nothing in the register.
pub proof fn law_valid_frame_leaves_nothing(frame: Seq<u8>)
    requires
        crc_valid(frame),
    ensures
        crc16(frame) == 0,
{
    let n = frame.len() - 2;
    let crc = crc16(frame.subrange(0, n));
    let low = frame[n];
    let high = frame[n + 1];
    let one = frame.subrange(0, n + 1);
    assert(one.drop_last() =~= frame.subrange(0, n));
    assert(frame.drop_last() =~= one);
    let first: u16 = crc ^ (low as u16);
    assert(first % 256 == 0 && first / 256 == high as u16) by (bit_vector)
        requires
            crc == low as u16 + 256 * (high as u16),
            first == crc ^ (low as u16),
    ;
    lemma_low_zeros_move_out(first, 8);
    let second = crc16(one);
    assert(second == first / 256);
    let h: u16 = high as u16;
    assert(h ^ h == 0) by (bit_vector);
    lemma_low_zeros_move_out(0, 8);
}

/// A register whose lowest bits are zero only moves.
proof fn lemma_low_zeros_move_out(register: u16, bits: nat)
    requires
        bits <= 8,
        register % 256 == 0,
    ensures
        bits == 8 ==> crc_bits(register, bits) == register / 256,
        crc_bits(register, bits) == register >> (bits as u16),
    decreases bits,
{
    if bits == 0 {
        assert(register >> 0u16 == register) by (bit_vector);
    } else {
        let less = (bits - 1) as nat;
        lemma_low_zeros_move_out(register, less);
        let k = less as u16;
        let at = register >> k;
        let next = register >> ((k + 1) as u16);
        let k1 = (k + 1) as u16;
        assert(at & 1 == 0 && at >> 1 == next) by (bit_vector)
            requires
                register % 256 == 0,
                k <= 7,
                k1 == k + 1,
                at == register >> k,
                next == register >> k1,
        ;
        assert(register >> 8u16 == register / 256) by (bit_vector);
    }
}

/// The average of some samples is their sum divided by their number, rounded toward zero, for the
/// humidity and for the temperature. Without samples there is none.
pub proof fn law_soil_average_is_the_mean(readings: Seq<Zts3000Reading>)
    requires
        readings.len() <= SAMPLES_THAT_FIT,
    ensures
        readings.len() == 0 <==> summed(readings).mean() is None,
        readings.len() > 0 ==> (summed(readings).mean() matches Some(mean) && {
            let n = readings.len() as int;
            &&& crate::arith::is_mean(
                mean.humidity_tenths as int,
                crate::arith::total(
                    readings.map_values(|r: Zts3000Reading| r.humidity_tenths as int),
                ),
                n,
            )
            &&& crate::arith::is_mean(
                mean.temperature_tenths as int,
                crate::arith::total(
                    readings.map_values(|r: Zts3000Reading| r.temperature_tenths as int),
                ),
                n,
            )
        }),
{
    let low = Zts3000Reading { humidity_tenths: 0, temperature_tenths: i16::MIN };
    let high = Zts3000Reading { humidity_tenths: 0xffff, temperature_tenths: 0x7fff };
    lemma_sums_are_bounded(readings, low, high);
    lemma_sums_are_totals(readings);
    let sum = summed(readings);
    let n = readings.len() as int;
    if n > 0 {
        lemma_mean_in_range(sum.humidity_sum as int, n, 0, 0xffff);
        lemma_mean_in_range(sum.temperature_sum as int, n, -0x8000, 0x7fff);
        crate::arith::lemma_quotient_is_mean(sum.humidity_sum as int, n);
        crate::arith::lemma_quotient_is_mean(sum.temperature_sum as int, n);
    }
}

proof fn lemma_sums_are_totals(readings: Seq<Zts3000Reading>)
    requires
        readings.len() <= SAMPLES_THAT_FIT,
    ensures
        summed(readings).humidity_sum == crate::arith::total(
            readings.map_values(|r: Zts3000Reading| r.humidity_tenths as int),
        ),
        summed(readings).temperature_sum == crate::arith::total(
            readings.map_values(|r: Zts3000Reading| r.temperature_tenths as int),
        ),
    decreases readings.len(),
{
    let humidities = readings.map_values(|r: Zts3000Reading| r.humidity_tenths as int);
    let temperatures = readings.map_values(|r: Zts3000Reading| r.temperature_tenths as int);
    if readings.len() > 0 {
        let front = readings.drop_last();
        let low = Zts3000Reading { humidity_tenths: 0, temperature_tenths: i16::MIN };
        let high = Zts3000Reading { humidity_tenths: 0xffff, temperature_tenths: 0x7fff };
        lemma_sums_are_totals(front);
        lemma_sums_are_bounded(front, low, high);
        assert(humidities.drop_last() =~= front.map_values(
            |r: Zts3000Reading| r.humidity_tenths as int,
        ));
        assert(temperatures.drop_last() =~= front.map_values(
            |r: Zts3000Reading| r.temperature_tenths as int,
        ));
    }
}

/// The rail is on for ten seconds: the phase settles for half a second, takes a sample every two
/// seconds, and once its time is up hands out the average and how many samples it is of.
pub proof fn law_soil_phase_samples_until_its_time_is_up(
    before: Zts3000Phase,
    event: Zts3000PhaseEvent,
    now: Instant,
)
    ensures
        ({
            let after = before.after(event, now);
            match (before.step, event) {
                (Zts3000PhaseStep::PowerOn, Zts3000PhaseEvent::PoweredOn) => {
                    &&& after.step == (Zts3000PhaseStep::Wait { ms: 500 })
                    &&& after.deadline == now.plus_ms(10_000)
                },
                (Zts3000PhaseStep::Wait { .. }, Zts3000PhaseEvent::Slept) => {
                    &&& after.deadline == before.deadline
                    &&& now.ticks < before.deadline.ticks ==> after.step is Sample
                    &&& now.ticks >= before.deadline.ticks ==> after.step == (
                    Zts3000PhaseStep::PowerOff {
                        average: before.average.mean(),
                        samples: before.average.count,
                    })
                },
                (Zts3000PhaseStep::Sample, Zts3000PhaseEvent::Sampled(_)) => {
                    &&& after.step == (Zts3000PhaseStep::Wait { ms: 2_000 })
                    &&& after.deadline == before.deadline
                },
                (Zts3000PhaseStep::PowerOff { average, .. }, Zts3000PhaseEvent::PoweredOff) => {
                    &&& after.step == (Zts3000PhaseStep::Ended { average })
                    &&& after.deadline == before.deadline
                },
                _ => after == before,
            }
        }),
{
}

/// A sample that was taken is added to the average once. One that failed, and any other event, leaves
/// the average as it was.
pub proof fn law_soil_phase_averages_what_was_sampled(
    before: Zts3000Phase,
    event: Zts3000PhaseEvent,
    now: Instant,
)
    requires
        before.has_room_for(event),
    ensures
        ({
            let after = before.after(event, now).average;
            match (before.step, event) {
                (Zts3000PhaseStep::Sample, Zts3000PhaseEvent::Sampled(Ok(reading))) => {
                    &&& after.count == before.average.count + 1
                    &&& after.humidity_sum == before.average.humidity_sum + reading.humidity_tenths
                    &&& after.temperature_sum == before.average.temperature_sum
                        + reading.temperature_tenths
                },
                _ => after == before.average,
            }
        }),
{
}

/// A soil average is shown in percent and degrees with one decimal, the temperature with its sign.
pub proof fn law_soil_average_is_shown(
    reading: Zts3000Reading,
    samples: u32,
    percent: nat,
    percent_tenth: nat,
    degrees: nat,
    degree_tenth: nat,
)
    requires
        percent_tenth < 10,
        degree_tenth < 10,
        reading.humidity_tenths == percent * 10 + percent_tenth,
        reading.temperature_tenths == degrees * 10 + degree_tenth || (reading.temperature_tenths < 0
            && reading.temperature_tenths == -(degrees * 10 + degree_tenth)),
    ensures
        zts3000_average_text(reading, samples) == "[rs485] avg "@ + crate::text::decimal(
            samples as nat,
        ) + " samples humidity="@ + crate::text::decimal(percent) + "."@ + crate::text::decimal(
            percent_tenth,
        ) + "% temperature="@ + (if reading.temperature_tenths < 0 {
            "-"@
        } else {
            ""@
        }) + crate::text::decimal(degrees) + "."@ + crate::text::decimal(degree_tenth) + "C"@,
{
}

/// How the log shows a fault of the frame tells which it is.
pub proof fn law_faults_of_the_frame_are_shown_by_name(fault: Zts3000ParseError)
    ensures
        fault.shown() == "ShortFrame"@ <==> fault is ShortFrame,
        fault.shown() == "LongFrame"@ <==> fault is LongFrame,
        fault.shown() == "WrongAddress"@ <==> fault is WrongAddress,
        fault.shown() == "WrongFunction"@ <==> fault is WrongFunction,
        fault.shown() == "WrongByteCount"@ <==> fault is WrongByteCount,
        fault.shown() == "Crc"@ <==> fault is Crc,
{
    reveal_strlit("ShortFrame");
    reveal_strlit("LongFrame");
    reveal_strlit("WrongAddress");
    reveal_strlit("WrongFunction");
    reveal_strlit("WrongByteCount");
    reveal_strlit("Crc");
    assert("ShortFrame"@.len() == 10 && "LongFrame"@.len() == 9 && "WrongAddress"@.len() == 12 && "WrongFunction"@.len() == 13 && "WrongByteCount"@.len() == 14 && "Crc"@.len() == 3);
}

/// The request asks station 1 for two registers from the first on.
pub proof fn law_request_asks_for_both_values()
    ensures
        ZTS3000_READ_HUM_TEMP@ == seq![0x01u8, 0x03, 0x00, 0x00, 0x00, 0x02, 0xc4, 0x0b],
{
    assert(ZTS3000_READ_HUM_TEMP@ =~= seq![0x01u8, 0x03, 0x00, 0x00, 0x00, 0x02, 0xc4, 0x0b]);
}

/// A sample is asked for, the request leaves the port, and the response has 700 ms to come. A fault of
/// the port ends the sample with that fault, silence with a timeout, and a response with what it says
/// or the fault that it is refused for.
pub proof fn law_soil_sample_runs_in_order(fault: UartError, frame: Vec<u8>)
    ensures
        ({
            let failed = Err::<Zts3000Reading, _>(Zts3000ReadError::Uart(fault));
            &&& Zts3000ReadStep::after_writing(Ok(())) is Flush
            &&& Zts3000ReadStep::after_writing(Err(fault)) == Zts3000ReadStep::Finished(failed)
            &&& Zts3000ReadStep::after_flushing(Ok(())) == (Zts3000ReadStep::Receive {
                timeout_ms: 700,
            })
            &&& Zts3000ReadStep::after_flushing(Err(fault)) == Zts3000ReadStep::Finished(failed)
            &&& Zts3000ReadStep::outcome(UartRead::Failed(fault)) == failed
            &&& Zts3000ReadStep::outcome(UartRead::TimedOut) == Err::<Zts3000Reading, _>(
                Zts3000ReadError::Timeout,
            )
            &&& match parsed_response(frame@) {
                Ok(reading) => Zts3000ReadStep::outcome(UartRead::Received(frame)) == Ok::<
                    _,
                    Zts3000ReadError,
                >(reading),
                Err(refused) => Zts3000ReadStep::outcome(UartRead::Received(frame)) == Err::<
                    Zts3000Reading,
                    _,
                >(Zts3000ReadError::Parse(refused)),
            }
        }),
{
}

/// The phase starts by switching the rail on, with no samples: their sums and their number are zero,
/// and there is no average.
pub proof fn law_soil_phase_starts_with_nothing(now: Instant)
    ensures
        ({
            let start = Zts3000Phase::begun(now);
            let sum = start.average;
            &&& start.step is PowerOn
            &&& sum.count == 0 && sum.humidity_sum == 0 && sum.temperature_sum == 0
            &&& sum.mean() is None
            &&& sum == summed(Seq::<Zts3000Reading>::empty())
        }),
{
}

/// A sample fits into the sums if and only if each sum, and the number of samples, stays in its range.
pub proof fn law_room_is_what_the_sums_have(sum: Zts3000Average, reading: Zts3000Reading)
    ensures
        sum.has_room_for(reading) <==> {
            &&& sum.humidity_sum + reading.humidity_tenths < 0x1_0000_0000
            &&& -0x8000_0000 <= sum.temperature_sum + reading.temperature_tenths < 0x8000_0000
            &&& sum.count + 1 < 0x8000_0000
        },
{
}

/// How the log shows a failed sample tells what failed.
pub proof fn law_soil_errors_are_shown_by_name(fault: UartError, refused: Zts3000ParseError)
    ensures
        Zts3000ReadError::Uart(fault).shown() == "Uart("@ + fault.shown() + ")"@,
        Zts3000ReadError::Timeout.shown() == "Timeout"@,
        Zts3000ReadError::Parse(refused).shown() == "Parse("@ + refused.shown() + ")"@,
{
}

/// Sums of any number of samples are averaged by dividing them by that number, toward zero.
pub proof fn law_soil_sums_are_divided_by_their_number(sum: Zts3000Average)
    requires
        sum.wf(),
        sum.count > 0,
    ensures
        sum.mean() matches Some(mean) && crate::arith::is_mean(
            mean.humidity_tenths as int,
            sum.humidity_sum as int,
            sum.count as int,
        ) && crate::arith::is_mean(
            mean.temperature_tenths as int,
            sum.temperature_sum as int,
            sum.count as int,
        ),
{
    let n = sum.count as int;
    lemma_mean_in_range(sum.humidity_sum as int, n, 0, 0xffff);
    lemma_mean_in_range(sum.temperature_sum as int, n, -0x8000, 0x7fff);
    crate::arith::lemma_quotient_is_mean(sum.humidity_sum as int, n);
    crate::arith::lemma_quotient_is_mean(sum.temperature_sum as int, n);
}

} // verus!
