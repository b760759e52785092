//! Bytes, measurements on the wire, the clock, log lines and the identity of the probe.
use probe_core::bytes::{
    i16_from_le, i16_to_be, i8_from_byte, same_bytes, starts_with, u16_from_le, u16_to_be,
    u32_from_le, u32_to_be, u32_to_le,
};
use probe_core::clock::Instant;
use probe_core::identity::{
    generate_uuid_v4, get_bd_addr, get_erk, get_irk, get_random_addr, heartbeat, next_beat,
};
use probe_core::measure::{transmission_text, Measure};
use probe_core::text::log_line;
use probe_core::{fw_codec, host_codec};

fn measure() -> Measure {
    Measure { temperature_c: 20.0f32.to_bits(), humidity_rh: 40.0f32.to_bits() }
}

#[test]
fn integers_as_bytes() {
    assert_eq!(u16_from_le(0x34, 0x12), 0x1234);
    assert_eq!(i16_from_le(0xff, 0xff), -1);
    assert_eq!(i16_from_le(0x00, 0x80), i16::MIN);
    assert_eq!(i8_from_byte(0x80), -128);
    assert_eq!(u32_from_le(1, 2, 3, 4), 0x0403_0201);
    assert_eq!(u32_to_le(0x0403_0201), [1, 2, 3, 4]);
    assert_eq!(u16_to_be(0x1234), [0x12, 0x34]);
    assert_eq!(i16_to_be(-2), [0xff, 0xfe]);
    assert_eq!(u32_to_be(0x0102_0304), [1, 2, 3, 4]);
    assert!(starts_with(b"HHMC1", b"HHMC"));
    assert!(!starts_with(b"HHM", b"HHMC"));
    assert!(same_bytes(b"ab", b"ab"));
    assert!(!same_bytes(b"ab", b"abc"));
}

#[test]
fn measurement_bytes_are_known() {
    let bytes = [0x00, 0x00, 0xa0, 0x41, 0x00, 0x00, 0x20, 0x42];
    assert_eq!(host_codec::to_bytes(&measure()), bytes);
    assert_eq!(fw_codec::to_bytes(&measure()), bytes);
    assert_eq!(transmission_text(&bytes), "TX: 00 00 A0 41 00 00 20 42 ");
}

#[test]
fn measurement_is_read_back_by_both_codecs() {
    for bits in [0u32, 1, 0x7fc0_0001, 0xff80_0000, u32::MAX] {
        let m = Measure { temperature_c: bits, humidity_rh: !bits };
        assert_eq!(host_codec::from_bytes(&host_codec::to_bytes(&m)), Some(m));
        assert_eq!(fw_codec::from_bytes(&fw_codec::to_bytes(&m)), Some(m));
        assert_eq!(host_codec::to_bytes(&m), fw_codec::to_bytes(&m));
    }
}

#[test]
fn bytes_are_those_of_two_floats() {
    let floats = (20.5f32, -3.25f32);
    let m = Measure { temperature_c: floats.0.to_bits(), humidity_rh: floats.1.to_bits() };
    let encoded = bincode::serde::encode_to_vec(floats, bincode::config::standard()).unwrap();
    assert_eq!(host_codec::to_bytes(&m), encoded);
    assert_eq!(fw_codec::to_bytes(&m), postcard::to_allocvec(&floats).unwrap());
}

#[test]
fn short_bytes_hold_no_measurement() {
    let mut bytes = host_codec::to_bytes(&measure());
    assert_eq!(host_codec::from_bytes(&bytes[..7]), None);
    assert_eq!(fw_codec::from_bytes(&bytes[..7]), None);
    assert_eq!(host_codec::from_bytes(&[]), None);
    bytes.push(0xee);
    assert_eq!(host_codec::from_bytes(&bytes), Some(measure()));
    assert_eq!(fw_codec::from_bytes(&bytes), Some(measure()));
}

#[test]
fn deadlines_round_up_to_whole_ticks() {
    let start = Instant { ticks: 100 };
    assert_eq!(start.after_millis(1), Instant { ticks: 133 });
    assert_eq!(start.after_millis(150), Instant { ticks: 5_016 });
    assert_eq!(start.after_millis(60_000), Instant { ticks: 1_966_180 });
    assert!(!Instant { ticks: 132 }.reached(Instant { ticks: 133 }));
    assert!(Instant { ticks: 133 }.reached(Instant { ticks: 133 }));
}

#[test]
fn clock_counts_milliseconds() {
    assert_eq!(Instant { ticks: 32_768 }.as_millis(), 1_000);
    assert_eq!(Instant { ticks: 33 }.as_millis(), 1);
    assert_eq!(Instant { ticks: 32 }.as_millis(), 0);
    assert_eq!(Instant { ticks: 0 }.millis_until(Instant { ticks: 49_152 }), 1_500);
    assert_eq!(Instant { ticks: 49_153 }.millis_until(Instant { ticks: 49_152 }), 0);
    let wrapped = Instant { ticks: (0x1_0000_0000u64 + 5) * 32_768 / 1_000 + 1 };
    assert_eq!(wrapped.now_ms_u32(), 5);
}

#[test]
fn log_lines_start_with_the_uptime() {
    assert_eq!(log_line(123, ""), "[       123 ms] \r\n");
    assert_eq!(
        log_line(1133, "[hb  ] beat #1 uptime_ms=1133"),
        "[      1133 ms] [hb  ] beat #1 uptime_ms=1133\r\n"
    );
    assert_eq!(log_line(123_456_789_012, "x"), "[123456789012 ms] x\r\n");
}

#[test]
fn heartbeat_counts_and_wraps() {
    assert_eq!(next_beat(0), 1);
    assert_eq!(next_beat(u32::MAX), 0);
    assert_eq!(heartbeat(2, 2133), "[hb  ] beat #2 uptime_ms=2133");
}

#[test]
fn addresses_come_from_the_chip() {
    assert_eq!(
        get_bd_addr(0x1122_3344_5566_7788, 0x26, 0x0080_e1),
        [0x88, 0x77, 0x66, 0x26, 0xe1, 0x80]
    );
    assert_eq!(get_random_addr(0x1122_3344_5566_7788), [0x88, 0x77, 0x66, 0, 0x6e, 0xed]);
    assert_eq!(get_irk()[..2], [0x12, 0x34]);
    assert_eq!(get_erk()[..2], [0xfe, 0xdc]);
}

#[test]
fn uuid_carries_version_and_variant() {
    assert_eq!(generate_uuid_v4(&[0xff; 16]), "ffffffff-ffff-4fff-bfff-ffffffffffff");
    assert_eq!(generate_uuid_v4(&[0; 16]), "00000000-0000-4000-8000-000000000000");
    let counting: [u8; 16] = [0, 1, 2, 3, 4, 5, 6, 7, 8, 9, 10, 11, 12, 13, 14, 15];
    assert_eq!(generate_uuid_v4(&counting), "00010203-0405-4607-8809-0a0b0c0d0e0f");
}
