//! The air and soil sensors, their phases, and the values that are published of them.
use probe_core::arith::{add32, add64, asr32, asr64, div64, mul32, mul64, sub32};
use probe_core::bme280::{
    log_bme280_average, run_bme280_phase, Bme280, Bme280Average, Bme280Init, Bme280PhaseEvent,
    Bme280PhaseStep, Bme280Sample, Error, Reading,
};
use probe_core::calibration::Calibration;
use probe_core::clock::Instant;
use probe_core::config::{sensor_rail_level, Level};
use probe_core::i2c::{I2cAction, I2cError, I2cEvent};
use probe_core::snapshot::SensorSnapshot;
use probe_core::uart::{UartError, UartRead};
use probe_core::zts3000::{
    log_zts3000_average, modbus_crc16, modbus_crc_is_valid, parse_zts3000_response, read_zts3000,
    run_zts3000_phase, Zts3000Average, Zts3000ParseError, Zts3000PhaseEvent, Zts3000PhaseStep,
    Zts3000ReadError, Zts3000ReadStep, Zts3000Reading,
};

const BLOCK1: [u8; 26] = [
    0x70, 0x6b, 0x43, 0x67, 0x18, 0xfc, 0x7d, 0x8e, 0x43, 0xd6, 0xd0, 0x0b, 0x27, 0x0b, 0x8c, 0x00,
    0xf9, 0xff, 0x8c, 0x3c, 0xf8, 0xc6, 0x70, 0x17, 0x00, 0x4b,
];
const BLOCK2: [u8; 7] = [0x6a, 0x01, 0x00, 0x13, 0x29, 0x03, 0x1e];
/// Raw pressure 415148, raw temperature 519888, raw humidity 30000.
const RAW: [u8; 8] = [0x65, 0x5a, 0xc0, 0x7e, 0xed, 0x00, 0x75, 0x30];

fn calibration() -> Calibration {
    Calibration::parse(&BLOCK1, &BLOCK2)
}

fn reading(temperature: i32, pressure: u32, humidity: u32) -> Reading {
    Reading {
        temperature_centidegrees: temperature,
        pressure_pa: pressure,
        humidity_q1024: humidity,
        is_bmp280: false,
    }
}

fn at_ms(ms: u64) -> Instant {
    Instant { ticks: 0 }.after_millis(ms)
}

#[test]
fn register_arithmetic_wraps_and_rounds() {
    assert_eq!(mul32(i32::MAX, 2), -2);
    assert_eq!(add32(i32::MAX, 1), i32::MIN);
    assert_eq!(sub32(i32::MIN, 1), i32::MAX);
    assert_eq!(mul64(i64::MAX, 2), -2);
    assert_eq!(add64(i64::MAX, 1), i64::MIN);
    assert_eq!(div64(-7, 2), -3);
    assert_eq!(asr32(-7, 1), -4);
    assert_eq!(asr64(-1, 40), -1);
}

#[test]
fn calibration_blocks_are_decoded() {
    let c = calibration();
    assert_eq!((c.dig_t1, c.dig_t2, c.dig_t3), (27504, 26435, -1000));
    assert_eq!((c.dig_p1, c.dig_p2, c.dig_p3), (36477, -10685, 3024));
    assert_eq!((c.dig_p4, c.dig_p5, c.dig_p6), (2855, 140, -7));
    assert_eq!((c.dig_p7, c.dig_p8, c.dig_p9), (15500, -14600, 6000));
    assert_eq!((c.dig_h1, c.dig_h2, c.dig_h3), (75, 362, 0));
    assert_eq!((c.dig_h4, c.dig_h5, c.dig_h6), (313, 50, 30));
    assert_eq!(c.t_fine, 0);
}

#[test]
fn negative_humidity_trims_are_sign_extended() {
    let c = Calibration::parse(&BLOCK1, &[0xff, 0xff, 0xff, 0x80, 0xf1, 0xff, 0x80]);
    assert_eq!(c.dig_h2, -1);
    assert_eq!(c.dig_h4, -2047);
    assert_eq!(c.dig_h5, -1);
    assert_eq!(c.dig_h6, -128);
}

#[test]
fn temperature_is_compensated() {
    let mut c = calibration();
    assert_eq!(c.compensate_temperature(519_888), 2508);
    assert_eq!(c.t_fine, 128_422);
    assert_eq!(c.compensate_temperature(300_000), -4436);
    assert_eq!(c.t_fine, -227_131);
    assert_eq!(c.compensate_temperature(0xf_ffff), 18_755);
}

#[test]
fn pressure_is_compensated() {
    let mut c = calibration();
    c.compensate_temperature(519_888);
    assert_eq!(c.compensate_pressure(415_148), 100_653);
}

#[test]
fn pressure_without_a_divisor_is_zero() {
    let mut c = calibration();
    c.dig_p1 = 0;
    c.compensate_temperature(519_888);
    assert_eq!(c.compensate_pressure(415_148), 0);
}

#[test]
fn humidity_is_compensated_and_stays_a_percentage() {
    let mut c = calibration();
    c.compensate_temperature(519_888);
    assert_eq!(c.compensate_humidity(20_000), 0);
    assert_eq!(c.compensate_humidity(26_000), 33_463);
    assert_eq!(c.compensate_humidity(30_000), 56_317);
    assert_eq!(c.compensate_humidity(36_000), 90_319);
    assert_eq!(c.compensate_humidity(65_535), 102_400);
}

fn started(chip_id: u8) -> Bme280Init {
    let mut init = Bme280::init(&[0x76, 0x77]);
    let chip = I2cAction::Read { address: 0x76, register: 0xd0, len: 1 };
    assert_eq!(init.action(), Some(chip));
    init = init.next(I2cEvent::Read(Ok(vec![chip_id])));
    let reset = I2cAction::Write { address: 0x76, register: 0xe0, value: 0xb6 };
    assert_eq!(init.action(), Some(reset));
    init = init.next(I2cEvent::Written(Ok(())));
    assert_eq!(init.action(), Some(I2cAction::Wait { ms: 3 }));
    init = init.next(I2cEvent::Waited);
    let block1 = I2cAction::Read { address: 0x76, register: 0x88, len: 26 };
    assert_eq!(init.action(), Some(block1));
    init = init.next(I2cEvent::Read(Ok(BLOCK1.to_vec())));
    let block2 = I2cAction::Read { address: 0x76, register: 0xe1, len: 7 };
    assert_eq!(init.action(), Some(block2));
    init.next(I2cEvent::Read(Ok(BLOCK2.to_vec())))
}

#[test]
fn bme280_starts_and_samples() {
    let mut init = started(0x60);
    let humidity = I2cAction::Write { address: 0x76, register: 0xf2, value: 0x01 };
    assert_eq!(init.action(), Some(humidity));
    init = init.next(I2cEvent::Written(Ok(())));
    assert_eq!(init.action(), None);
    let Bme280Init::Finished(Ok(mut sensor)) = init else {
        panic!("sensor has not started");
    };
    assert_eq!(sensor.address(), 0x76);
    assert!(!sensor.is_bmp280);

    let mut sample = sensor.read_forced();
    let trigger = I2cAction::Write { address: 0x76, register: 0xf4, value: 0x25 };
    assert_eq!(sample.action(&sensor), Some(trigger));
    sample = sample.next(&mut sensor, &I2cEvent::Written(Ok(())));
    assert_eq!(sample.action(&sensor), Some(I2cAction::Wait { ms: 10 }));
    sample = sample.next(&mut sensor, &I2cEvent::Waited);
    let data = I2cAction::Read { address: 0x76, register: 0xf7, len: 8 };
    assert_eq!(sample.action(&sensor), Some(data));
    sample = sample.next(&mut sensor, &I2cEvent::Read(Ok(RAW.to_vec())));
    assert_eq!(sample, Bme280Sample::Finished(Ok(reading(2508, 100_653, 56_317))));
    assert_eq!(sensor.calibration.t_fine, 128_422);
}

#[test]
fn bmp280_starts_without_humidity() {
    for id in [0x58u8, 0x56, 0x57] {
        let Bme280Init::Finished(Ok(mut sensor)) = started(id) else {
            panic!("sensor has not started");
        };
        assert!(sensor.is_bmp280);
        let sample = sensor.decode(&RAW);
        assert_eq!(sample.humidity_q1024, 0);
        assert_eq!(sample.pressure_pa, 100_653);
    }
}

#[test]
fn sensor_is_looked_for_at_the_second_address() {
    let mut init = Bme280::init(&[0x76, 0x77]);
    init = init.next(I2cEvent::Read(Err(I2cError::Nack)));
    let chip = I2cAction::Read { address: 0x77, register: 0xd0, len: 1 };
    assert_eq!(init.action(), Some(chip));
    init = init.next(I2cEvent::Read(Err(I2cError::Nack)));
    assert_eq!(init, Bme280Init::Finished(Err(Error::Missing)));
    assert_eq!(Bme280::init(&[]), Bme280Init::Finished(Err(Error::Missing)));
    let zero = Bme280::init(&[0]).next(I2cEvent::Read(Ok(vec![0x60])));
    assert_eq!(zero, Bme280Init::Finished(Err(Error::Missing)));
}

#[test]
fn start_up_errors_are_reported() {
    let other = Bme280::init(&[0x76]).next(I2cEvent::Read(Ok(vec![0x61])));
    assert_eq!(other, Bme280Init::Finished(Err(Error::UnexpectedChipId(0x61))));
    let reset = Bme280Init::Reset { address: 0x76, is_bmp280: false };
    let failed = reset.next(I2cEvent::Written(Err(I2cError::Arbitration)));
    assert_eq!(failed, Bme280Init::Finished(Err(Error::I2c(I2cError::Arbitration))));
    assert_eq!(Error::UnexpectedChipId(0x61).text(), "UnexpectedChipId(0x61)");
    assert_eq!(Error::I2c(I2cError::Nack).text(), "I2c(Nack)");
    assert_eq!(Error::Missing.text(), "Missing");
}

#[test]
fn an_event_that_was_not_asked_for_changes_nothing() {
    let init = Bme280::init(&[0x76]).next(I2cEvent::Waited);
    assert_eq!(init, Bme280::init(&[0x76]));
}

#[test]
fn air_samples_are_averaged_toward_zero() {
    let mut average = Bme280Average::default();
    assert_eq!(average.finish(), None);
    assert!(average.has_room());
    average.add(reading(-5, 100_000, 1000));
    average.add(reading(-2, 100_003, 1001));
    assert_eq!(average.finish(), Some(reading(-3, 100_001, 1000)));
}

#[test]
fn average_of_a_bmp280_has_no_humidity() {
    let mut average = Bme280Average::default();
    for temperature in [2000, 2100] {
        average.add(Reading { is_bmp280: true, ..reading(temperature, 100_000, 0) });
    }
    let mean = average.finish().unwrap();
    assert_eq!((mean.temperature_centidegrees, mean.humidity_q1024), (2050, 0));
    assert!(mean.is_bmp280);
}

#[test]
fn air_phase_takes_five_samples() {
    let mut now_ms = 1_000;
    let mut phase = run_bme280_phase(at_ms(now_ms));
    let mut samples = 0;
    let result = loop {
        let event = match phase.step {
            Bme280PhaseStep::PowerOn => Bme280PhaseEvent::PoweredOn,
            Bme280PhaseStep::Settle { ms } => {
                assert_eq!(ms, 1_500);
                now_ms += ms;
                Bme280PhaseEvent::Slept
            }
            Bme280PhaseStep::Init { addresses } => {
                assert_eq!(addresses, [0x76, 0x77]);
                Bme280PhaseEvent::Started { ok: true }
            }
            Bme280PhaseStep::Sample => {
                samples += 1;
                Bme280PhaseEvent::Sampled(Ok(reading(2200, 101_325, 43_110)))
            }
            Bme280PhaseStep::Pause { ms } => {
                assert_eq!(ms, 2_000);
                now_ms += ms;
                Bme280PhaseEvent::Slept
            }
            Bme280PhaseStep::PowerOff { samples: count, .. } => {
                assert_eq!(count, samples);
                Bme280PhaseEvent::PoweredOff
            }
            Bme280PhaseStep::Ended { average } => break average,
        };
        phase.next(event, at_ms(now_ms));
    };
    assert_eq!(samples, 5);
    assert_eq!(now_ms, 12_500);
    assert_eq!(result, Some(reading(2200, 101_325, 43_110)));
}

#[test]
fn air_phase_without_a_sensor_switches_the_rail_off() {
    let mut phase = run_bme280_phase(at_ms(0));
    phase.next(Bme280PhaseEvent::PoweredOn, at_ms(0));
    phase.next(Bme280PhaseEvent::Slept, at_ms(1_500));
    phase.next(Bme280PhaseEvent::Started { ok: false }, at_ms(1_600));
    assert_eq!(phase.step, Bme280PhaseStep::PowerOff { average: None, samples: 0 });
    phase.next(Bme280PhaseEvent::PoweredOff, at_ms(1_600));
    assert_eq!(phase.step, Bme280PhaseStep::Ended { average: None });
    phase.next(Bme280PhaseEvent::PoweredOn, at_ms(1_700));
    assert_eq!(phase.step, Bme280PhaseStep::Ended { average: None });
}

#[test]
fn rails_are_active_low() {
    assert_eq!(sensor_rail_level(true), Level::Low);
    assert_eq!(sensor_rail_level(false), Level::High);
}

#[test]
fn air_average_is_logged() {
    assert_eq!(
        log_bme280_average(0x76, reading(2204, 101_325, 43_110), 5),
        "[bme ] avg 5 samples addr=0x76 temp=22.0C pressure=1013.25hPa humidity=42.0%"
    );
    let cold = Reading { is_bmp280: true, ..reading(-55, 99_905, 0) };
    assert_eq!(
        log_bme280_average(0x77, cold, 1),
        "[bme ] avg 1 samples addr=0x77 temp=-0.5C pressure=999.05hPa humidity=n/a"
    );
}

#[test]
fn checksum_of_known_frames() {
    assert_eq!(modbus_crc16(b"123456789"), 0x4b37);
    assert_eq!(modbus_crc16(&[]), 0xffff);
    assert!(modbus_crc_is_valid(&[0x01, 0x03, 0x00, 0x00, 0x00, 0x02, 0xc4, 0x0b]));
}

#[test]
fn checksum_detects_every_changed_byte() {
    let frame = [0x01, 0x03, 0x04, 0x01, 0xa5, 0x00, 0xd9, 0x2a, 0x76];
    assert!(modbus_crc_is_valid(&frame));
    for at in 0..frame.len() {
        for change in 1..=255u8 {
            let mut changed = frame;
            changed[at] ^= change;
            assert!(!modbus_crc_is_valid(&changed));
        }
    }
}

#[test]
fn soil_responses_are_parsed() {
    assert_eq!(
        parse_zts3000_response(&[0x01, 0x03, 0x04, 0x01, 0xa5, 0x00, 0xd9, 0x2a, 0x76]),
        Ok(Zts3000Reading { humidity_tenths: 421, temperature_tenths: 217 })
    );
    assert_eq!(
        parse_zts3000_response(&[0x01, 0x03, 0x04, 0x02, 0x92, 0xff, 0x9b, 0x5a, 0x3d]),
        Ok(Zts3000Reading { humidity_tenths: 658, temperature_tenths: -101 })
    );
}

#[test]
fn faulty_soil_responses_are_refused() {
    let cases: [(&[u8], Zts3000ParseError); 6] = [
        (&[0x01, 0x03], Zts3000ParseError::ShortFrame),
        (&[0; 10], Zts3000ParseError::LongFrame),
        (&[0x01, 0x03, 0x04, 0x01, 0xa5, 0x00, 0xd9, 0x2a, 0x77], Zts3000ParseError::Crc),
        (&[0x02, 0x03, 0x04, 0x01, 0xa5, 0x00, 0xd9, 0x19, 0x76], Zts3000ParseError::WrongAddress),
        (&[0x01, 0x04, 0x04, 0x01, 0xa5, 0x00, 0xd9, 0x2b, 0xc1], Zts3000ParseError::WrongFunction),
        (&[0x01, 0x03, 0x05, 0x01, 0xa5, 0x00, 0xd9, 0x17, 0xb6], Zts3000ParseError::WrongByteCount),
    ];
    for (frame, error) in cases {
        assert_eq!(parse_zts3000_response(frame), Err(error));
    }
    assert_eq!(Zts3000ReadError::Parse(Zts3000ParseError::Crc).text(), "Parse(Crc)");
    assert_eq!(Zts3000ReadError::Uart(UartError::Noise).text(), "Uart(Noise)");
    assert_eq!(Zts3000ReadError::Timeout.text(), "Timeout");
}

#[test]
fn soil_sample_is_asked_for_and_received() {
    let request = [0x01, 0x03, 0x00, 0x00, 0x00, 0x02, 0xc4, 0x0b];
    assert_eq!(read_zts3000(), Zts3000ReadStep::Write { request });
    assert_eq!(Zts3000ReadStep::written(Ok(())), Zts3000ReadStep::Flush);
    assert_eq!(Zts3000ReadStep::flushed(Ok(())), Zts3000ReadStep::Receive { timeout_ms: 700 });
    let frame = vec![0x01, 0x03, 0x04, 0x01, 0xa5, 0x00, 0xd9, 0x2a, 0x76];
    let reading = Zts3000Reading { humidity_tenths: 421, temperature_tenths: 217 };
    assert_eq!(
        Zts3000ReadStep::received(&UartRead::Received(frame)),
        Zts3000ReadStep::Finished(Ok(reading))
    );
    assert_eq!(
        Zts3000ReadStep::received(&UartRead::TimedOut),
        Zts3000ReadStep::Finished(Err(Zts3000ReadError::Timeout))
    );
    assert_eq!(
        Zts3000ReadStep::written(Err(UartError::Parity)),
        Zts3000ReadStep::Finished(Err(Zts3000ReadError::Uart(UartError::Parity)))
    );
    assert_eq!(
        Zts3000ReadStep::flushed(Err(UartError::Overrun)),
        Zts3000ReadStep::Finished(Err(Zts3000ReadError::Uart(UartError::Overrun)))
    );
    assert_eq!(
        Zts3000ReadStep::received(&UartRead::Failed(UartError::Framing)),
        Zts3000ReadStep::Finished(Err(Zts3000ReadError::Uart(UartError::Framing)))
    );
}

#[test]
fn soil_samples_are_averaged_toward_zero() {
    let mut average = Zts3000Average::default();
    assert_eq!(average.finish(), None);
    for (humidity_tenths, temperature_tenths) in [(421, -5), (422, -2)] {
        let sample = Zts3000Reading { humidity_tenths, temperature_tenths };
        assert!(average.has_room(&sample));
        average.add(sample);
    }
    assert_eq!(
        average.finish(),
        Some(Zts3000Reading { humidity_tenths: 421, temperature_tenths: -3 })
    );
    let full = Zts3000Average { humidity_sum: u32::MAX, temperature_sum: 0, count: 70_000 };
    assert!(!full.has_room(&Zts3000Reading { humidity_tenths: 1, temperature_tenths: 0 }));
}

#[test]
fn soil_phase_takes_five_samples_and_ignores_faults() {
    let mut now_ms = 0;
    let mut phase = run_zts3000_phase(at_ms(now_ms));
    let mut attempts = 0;
    let sample = Zts3000Reading { humidity_tenths: 421, temperature_tenths: 217 };
    let result = loop {
        let event = match phase.step {
            Zts3000PhaseStep::PowerOn => Zts3000PhaseEvent::PoweredOn,
            Zts3000PhaseStep::Wait { ms } => {
                now_ms += ms;
                Zts3000PhaseEvent::Slept
            }
            Zts3000PhaseStep::Sample => {
                attempts += 1;
                if attempts == 2 {
                    Zts3000PhaseEvent::Sampled(Err(Zts3000ReadError::Timeout))
                } else {
                    Zts3000PhaseEvent::Sampled(Ok(sample))
                }
            }
            Zts3000PhaseStep::PowerOff { samples, .. } => {
                assert_eq!(samples, 4);
                Zts3000PhaseEvent::PoweredOff
            }
            Zts3000PhaseStep::Ended { average } => break average,
        };
        phase.next(event, at_ms(now_ms));
    };
    assert_eq!(attempts, 5);
    assert_eq!(now_ms, 10_500);
    assert_eq!(result, Some(sample));
}

#[test]
fn soil_average_is_logged() {
    let warm = Zts3000Reading { humidity_tenths: 421, temperature_tenths: 217 };
    assert_eq!(
        log_zts3000_average(warm, 5),
        "[rs485] avg 5 samples humidity=42.1% temperature=21.7C"
    );
    let cold = Zts3000Reading { humidity_tenths: 5, temperature_tenths: -7 };
    assert_eq!(
        log_zts3000_average(cold, 12),
        "[rs485] avg 12 samples humidity=0.5% temperature=-0.7C"
    );
}

#[test]
fn snapshot_converts_units() {
    let soil = Zts3000Reading { humidity_tenths: 421, temperature_tenths: -217 };
    let snapshot =
        SensorSnapshot::from_phase_results(Some(reading(2508, 100_653, 56_317)), Some(soil));
    assert_eq!(
        snapshot,
        SensorSnapshot {
            air_temperature_centi: 2508,
            air_pressure_pa: 100_653,
            air_humidity_centi_pct: 5500,
            soil_temperature_centi: -2170,
            soil_humidity_centi_pct: 4210,
        }
    );
}

#[test]
fn snapshot_of_nothing_is_zero() {
    assert_eq!(SensorSnapshot::from_phase_results(None, None), SensorSnapshot::default());
    let bmp = Reading { is_bmp280: true, ..reading(100, 1, 5_000) };
    assert_eq!(SensorSnapshot::from_phase_results(Some(bmp), None).air_humidity_centi_pct, 0);
}

#[test]
fn snapshot_clamps_what_does_not_fit() {
    let soil = Zts3000Reading { humidity_tenths: 65_535, temperature_tenths: -32_768 };
    let hot = SensorSnapshot::from_phase_results(Some(reading(40_000, 0, u32::MAX)), Some(soil));
    assert_eq!(hot.air_temperature_centi, i16::MAX);
    assert_eq!(hot.air_humidity_centi_pct, u16::MAX);
    assert_eq!(hot.soil_temperature_centi, i16::MIN);
    assert_eq!(hot.soil_humidity_centi_pct, u16::MAX);
    let cold = SensorSnapshot::from_phase_results(Some(reading(-40_000, 0, 0)), None);
    assert_eq!(cold.air_temperature_centi, i16::MIN);
    let full = SensorSnapshot::from_phase_results(Some(reading(0, 0, 102_400)), None);
    assert_eq!(full.air_humidity_centi_pct, 10_000);
}
