//! Identity of the probe on the air, and the timing of its cycle.
use vstd::prelude::*;

verus! {

/// Company identifier of the manufacturer data.
pub const COMPANY_ID: u16 = 0x1234;

/// Marker of the manufacturer data: "HH-PROBE".
pub const MAGIC_MARKER: [u8; 8] = [0x48, 0x48, 0x2d, 0x50, 0x52, 0x4f, 0x42, 0x45];

pub const PROBE_VERSION: [u8; 2] = [1, 0];

pub const PROBE_NAME: &'static str = "Sonde-1";

pub const ENVIRONMENTAL_SENSING_SERVICE_UUID16: u16 = 0x181a;

pub const TEMP_CHAR_UUID16: u16 = 0x2a6e;

pub const PRESSURE_CHAR_UUID16: u16 = 0x2a6d;

pub const HUM_CHAR_UUID16: u16 = 0x2a6f;

/// Name in normal operation: "HH-PROBE-A".
pub const DEVICE_NAME: [u8; 10] = [0x48, 0x48, 0x2d, 0x50, 0x52, 0x4f, 0x42, 0x45, 0x2d, 0x41];

/// Name while the probe waits to be set up: "HH-PROBE-SETUP".
pub const SETUP_DEVICE_NAME: [u8; 14] = [
    0x48, 0x48, 0x2d, 0x50, 0x52, 0x4f, 0x42, 0x45, 0x2d, 0x53, 0x45, 0x54, 0x55, 0x50,
];

/// Length of the longer of the two names.
pub const BLE_GAP_DEVICE_NAME_LENGTH: u8 = 14;

/// Marker of the manufacturer data before set-up: "HH-SETUP".
pub const SETUP_MAGIC_MARKER: [u8; 8] = [0x48, 0x48, 0x2d, 0x53, 0x45, 0x54, 0x55, 0x50];

/// Advertisement: manufacturer data with company, marker "HH-PROBE", version and name "HH-PROBE-A".
pub const PROBE_ADV_DATA: [u8; 24] = [
    23, 0xff, 0x34, 0x12, 0x48, 0x48, 0x2d, 0x50, 0x52, 0x4f, 0x42, 0x45, 1, 0, 0x48, 0x48, 0x2d, 0x50,
    0x52, 0x4f, 0x42, 0x45, 0x2d, 0x41,
];

/// Scan response: the complete local name "HH-PROBE-A".
pub const PROBE_SCAN_RESPONSE_DATA: [u8; 12] = [
    11, 0x09, 0x48, 0x48, 0x2d, 0x50, 0x52, 0x4f, 0x42, 0x45, 0x2d, 0x41,
];

/// Advertisement before set-up: manufacturer data with company, marker "HH-SETUP" and version.
pub const SETUP_PROBE_ADV_DATA: [u8; 14] = [
    13, 0xff, 0x34, 0x12, 0x48, 0x48, 0x2d, 0x53, 0x45, 0x54, 0x55, 0x50, 1, 0,
];

/// Scan response before set-up: the complete local name "HH-PROBE-SETUP".
pub const SETUP_PROBE_SCAN_RESPONSE_DATA: [u8; 16] = [
    15, 0x09, 0x48, 0x48, 0x2d, 0x50, 0x52, 0x4f, 0x42, 0x45, 0x2d, 0x53, 0x45, 0x54, 0x55, 0x50,
];

pub const HEARTBEAT_INTERVAL_MS: u64 = 30_000;

pub const SLEEP_DURATION_MS: u64 = 30_000;

pub const SENSOR_ACTIVE_PHASE_MS: u64 = 10_000;

pub const SENSOR_SAMPLE_INTERVAL_MS: u64 = 2_000;

pub const BME280_POWER_SETTLE_MS: u64 = 1_500;

pub const RS485_POWER_SETTLE_MS: u64 = 500;

pub const BLE_ADV_TIMEOUT_MS: u64 = 60_000;

pub const BLE_CONNECTED_TIMEOUT_MS: u64 = 60_000;

pub const BLE_TERMINATE_WAIT_MS: u64 = 10_000;

pub const BLE_COMMAND_TIMEOUT_MS: u64 = 5_000;

/// Time between two advertisements.
pub const ADVERTISING_INTERVAL_MS: u64 = 250;

/// How long the advertising session waits for one packet.
pub const BLE_READ_TIMEOUT_MS: u64 = 250;

/// Pause before set-up is tried again.
pub const SETUP_RETRY_MS: u64 = 1_000;

/// Longest sleep between two looks at the motor watchdog.
pub const IDLE_CHUNK_MS: u64 = 100;

/// An advertisement or scan response is one structure: a length byte, a type and a body that the
/// length counts, 31 bytes at most.
pub open spec fn is_advertising_structure(data: Seq<u8>, kind: u8) -> bool {
    2 <= data.len() <= 31 && data[0] + 1 == data.len() && data[1] == kind
}

/// Both advertisements carry the company identifier, their marker and the version, and the normal
/// one the name too. The scan responses carry the complete local name, which would not fit beside
/// the normal advertisement in the 31 bytes of a packet.
pub proof fn law_advertising_data_is_well_formed()
    ensures
        is_advertising_structure(PROBE_ADV_DATA@, 0xff),
        is_advertising_structure(SETUP_PROBE_ADV_DATA@, 0xff),
        is_advertising_structure(PROBE_SCAN_RESPONSE_DATA@, 0x09),
        is_advertising_structure(SETUP_PROBE_SCAN_RESPONSE_DATA@, 0x09),
        crate::bytes::le16(PROBE_ADV_DATA@[2], PROBE_ADV_DATA@[3]) == COMPANY_ID,
        crate::bytes::le16(SETUP_PROBE_ADV_DATA@[2], SETUP_PROBE_ADV_DATA@[3]) == COMPANY_ID,
        PROBE_ADV_DATA@.subrange(4, 12) == MAGIC_MARKER@,
        SETUP_PROBE_ADV_DATA@.subrange(4, 12) == SETUP_MAGIC_MARKER@,
        PROBE_ADV_DATA@.subrange(12, 14) == PROBE_VERSION@,
        SETUP_PROBE_ADV_DATA@.subrange(12, 14) == PROBE_VERSION@,
        PROBE_ADV_DATA@.subrange(14, 24) == DEVICE_NAME@,
        PROBE_SCAN_RESPONSE_DATA@.subrange(2, 12) == DEVICE_NAME@,
        SETUP_PROBE_SCAN_RESPONSE_DATA@.subrange(2, 16) == SETUP_DEVICE_NAME@,
        BLE_GAP_DEVICE_NAME_LENGTH == SETUP_DEVICE_NAME@.len(),
        BLE_GAP_DEVICE_NAME_LENGTH >= DEVICE_NAME@.len(),
        PROBE_ADV_DATA@.len() <= 31 < PROBE_ADV_DATA@.len() + PROBE_SCAN_RESPONSE_DATA@.len(),
{
}

/// Level of an output pin.
#[derive(Clone, Copy, Debug, PartialEq, Eq, Structural)]
pub enum Level {
    Low,
    High,
}

/// Level that switches a sensor rail on or off. Both rails are active-low.
pub fn sensor_rail_level(on: bool) -> (r: Level)
    ensures
        r == rail_level(on),
        on ==> r == Level::Low,
        !on ==> r == Level::High,
{
    if on {
        Level::Low
    } else {
        Level::High
    }
}

/// The level that switches a sensor rail on or off.
pub open spec fn rail_level(on: bool) -> Level {
    if on {
        Level::Low
    } else {
        Level::High
    }
}

/// A rail is powered if and only if its pin is low.
pub proof fn law_rail_is_powered_by_a_low_pin(on: bool)
    ensures
        rail_level(on) is Low <==> on,
{
}

/// A cycle sleeps for 30 s, has a rail on for 10 s with a sample every 2 s, and advertises for a
/// minute at most. A connection lasts a minute at most, and a command of the radio 5 s.
pub proof fn law_timing_of_the_cycle()
    ensures
        SLEEP_DURATION_MS == 30_000,
        HEARTBEAT_INTERVAL_MS == 30_000,
        SENSOR_ACTIVE_PHASE_MS == 10_000,
        SENSOR_SAMPLE_INTERVAL_MS == 2_000,
        BME280_POWER_SETTLE_MS == 1_500,
        RS485_POWER_SETTLE_MS == 500,
        BLE_ADV_TIMEOUT_MS == 60_000,
        BLE_CONNECTED_TIMEOUT_MS == 60_000,
        BLE_TERMINATE_WAIT_MS == 10_000,
        BLE_COMMAND_TIMEOUT_MS == 5_000,
        BLE_READ_TIMEOUT_MS == ADVERTISING_INTERVAL_MS == 250,
        SETUP_RETRY_MS == 1_000,
        IDLE_CHUNK_MS == 100,
{
}

} // verus!
