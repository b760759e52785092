//! Registration, publication, the two sessions, set-up and the life of the probe.
use probe_core::advertising::{
    run_advertising_session, AdvertisingSession, SessionEvent, SessionStep,
};
use probe_core::bme280::Reading;
use probe_core::clock::Instant;
use probe_core::config::{PROBE_ADV_DATA, PROBE_SCAN_RESPONSE_DATA, SETUP_PROBE_ADV_DATA};
use probe_core::gatt::{
    update_ble_environmental_values, CharacteristicAccess, CharacteristicUuid, GattHandles,
    GattSetup, GattSetupStep, UpdateStep, MOTOR_COMMAND_CHAR_UUID, PROBE_UUID_CHAR_UUID,
};
use probe_core::hci::{
    isr_delay_is_reported, wait_for_gap_set_discoverable_complete,
    wait_for_gap_set_nondiscoverable_complete, wait_for_gap_update_advertising_data_complete,
    wait_for_gatt_add_characteristic_complete, wait_for_gatt_add_service_complete,
    wait_for_gatt_update_complete, CommandReturn, CommandWait, HciEvent, HciRead, WriteRequest,
};
use probe_core::lifecycle::{Lifecycle, LifecycleEvent, LifecycleStep};
use probe_core::motor_command::{
    encode_motor_command_payload, MotorCommandAction, MotorCommandPayload, MotorCommandState,
    MotorCommandValidationError, MotorCommandWriteOutcome,
};
use probe_core::motor_uart::{MotorUartAdapter, MotorUartResult, MotorWatchdogState};
use probe_core::setup::{
    first_boot_setup_is_pending, mark_first_boot_setup_complete, run_setup_advertising_session,
    FlashStep, SetupEvent, SetupSession, SetupStep, SETUP_COMPLETE_MAGIC,
};
use probe_core::snapshot::SensorSnapshot;
use probe_core::zts3000::Zts3000Reading;

fn handles() -> GattHandles {
    GattHandles {
        probe_uuid: 0x10,
        air_temp: 0x12,
        air_pressure: 0x14,
        air_humidity: 0x16,
        soil_temp: 0x18,
        soil_humidity: 0x1a,
        setup_confirm: 0x1c,
        motor_command: 0x1e,
    }
}

fn at_ms(ms: u64) -> Instant {
    Instant { ticks: 0 }.after_millis(ms)
}

fn complete(returned: CommandReturn) -> HciRead {
    HciRead::Event(HciEvent::CommandComplete(returned))
}

fn connected() -> HciRead {
    HciRead::Event(HciEvent::LeConnectionComplete { success: true, conn_handle: 0x801 })
}

fn disconnected() -> HciRead {
    HciRead::Event(HciEvent::DisconnectionComplete)
}

fn write_of(attribute_handle: u16, value: &[u8]) -> HciRead {
    HciRead::Event(HciEvent::AttWritePermitRequest(WriteRequest {
        conn_handle: 0x801,
        attribute_handle,
        value: value.to_vec(),
    }))
}

fn motor_payload(id: u8) -> [u8; 30] {
    encode_motor_command_payload(&MotorCommandPayload {
        action: MotorCommandAction::RunForDuration,
        command_id: [id; 16],
        duration_ms: 1_000,
        expires_after_ms: 80_000,
    })
}

#[test]
fn waits_end_with_their_own_command() {
    let other = complete(CommandReturn::Other);
    let service = CommandReturn::GattAddService { success: true, service_handle: 5 };
    assert_eq!(
        wait_for_gatt_add_service_complete(&complete(service)),
        CommandWait::Finished(Some(5))
    );
    assert_eq!(wait_for_gatt_add_service_complete(&other), CommandWait::KeepReading);
    assert_eq!(
        wait_for_gatt_add_service_complete(&HciRead::TimedOut),
        CommandWait::Finished(None)
    );
    assert_eq!(wait_for_gatt_add_service_complete(&HciRead::Failed), CommandWait::KeepReading);
    let added = CommandReturn::GattAddCharacteristic { success: false, characteristic_handle: 5 };
    assert_eq!(
        wait_for_gatt_add_characteristic_complete(&complete(added)),
        CommandWait::Finished(None)
    );
    assert_eq!(
        wait_for_gatt_add_characteristic_complete(&complete(service)),
        CommandWait::KeepReading
    );
    let ends: [(fn(&HciRead) -> CommandWait<bool>, CommandReturn, CommandReturn); 4] = [
        (
            wait_for_gatt_update_complete,
            CommandReturn::GattUpdateCharacteristicValue { success: true },
            CommandReturn::GattUpdateCharacteristicValue { success: false },
        ),
        (
            wait_for_gap_set_discoverable_complete,
            CommandReturn::GapSetDiscoverable { success: true },
            CommandReturn::GapSetDiscoverable { success: false },
        ),
        (
            wait_for_gap_update_advertising_data_complete,
            CommandReturn::GapUpdateAdvertisingData { success: true },
            CommandReturn::GapUpdateAdvertisingData { success: false },
        ),
        (
            wait_for_gap_set_nondiscoverable_complete,
            CommandReturn::GapSetNonDiscoverable { success: true },
            CommandReturn::GapSetNonDiscoverable { success: false },
        ),
    ];
    for (wait, good, bad) in ends {
        assert_eq!(wait(&complete(good)), CommandWait::Finished(true));
        assert_eq!(wait(&complete(bad)), CommandWait::Finished(false));
        assert_eq!(wait(&other), CommandWait::KeepReading);
        assert_eq!(wait(&HciRead::Failed), CommandWait::KeepReading);
        assert_eq!(wait(&HciRead::TimedOut), CommandWait::Finished(false));
    }
}

#[test]
fn late_interrupts_are_reported_sparsely() {
    let reported: Vec<u32> = (1..=100).filter(|count| isr_delay_is_reported(*count)).collect();
    assert_eq!(reported, [1, 32, 64, 96]);
}

#[test]
fn advertising_data_carries_marker_and_name() {
    assert_eq!(&PROBE_ADV_DATA, b"\x17\xff\x34\x12HH-PROBE\x01\x00HH-PROBE-A");
    assert_eq!(&SETUP_PROBE_ADV_DATA, b"\x0d\xff\x34\x12HH-SETUP\x01\x00");
    assert_eq!(&PROBE_SCAN_RESPONSE_DATA, b"\x0b\x09HH-PROBE-A");
}

#[test]
fn service_and_characteristics_are_registered_in_order() {
    let mut setup = GattSetup::start();
    assert_eq!(setup.service(), (0x181a, 24));
    assert_eq!(setup.next_characteristic(), None);
    setup.sent();
    assert_eq!(setup.step, GattSetupStep::AwaitService);
    setup.received(&complete(CommandReturn::Other));
    setup.received(&complete(CommandReturn::GattAddService { success: true, service_handle: 9 }));
    assert_eq!(setup.service_handle, 9);
    let mut registered = Vec::new();
    while setup.step != GattSetupStep::Ready {
        let characteristic = setup.next_characteristic().unwrap();
        assert_eq!((characteristic.encryption_key_size, characteristic.is_variable), (7, false));
        registered.push((characteristic.uuid, characteristic.access, characteristic.value_len));
        setup.sent();
        let characteristic_handle = 0x10 + 2 * (registered.len() as u16 - 1);
        setup.received(&complete(CommandReturn::GattAddCharacteristic {
            success: true,
            characteristic_handle,
        }));
    }
    assert_eq!(setup.handles(), Some(handles()));
    let read = CharacteristicAccess::Read;
    let write = CharacteristicAccess::WriteWithPermission;
    assert_eq!(registered[0], (CharacteristicUuid::Uuid128(PROBE_UUID_CHAR_UUID), read, 36));
    assert_eq!(registered[1], (CharacteristicUuid::Uuid16(0x2a6e), read, 2));
    assert_eq!(registered[2], (CharacteristicUuid::Uuid16(0x2a6d), read, 4));
    assert_eq!(registered[3], (CharacteristicUuid::Uuid16(0x2a6f), read, 2));
    assert_eq!((registered[4].1, registered[4].2), (read, 2));
    assert_eq!((registered[5].1, registered[5].2), (read, 2));
    assert_eq!((registered[6].1, registered[6].2), (write, 8));
    assert_eq!(registered[7], (CharacteristicUuid::Uuid128(MOTOR_COMMAND_CHAR_UUID), write, 30));
}

#[test]
fn long_uuids_are_numbered_from_one_base() {
    let mut published = MOTOR_COMMAND_CHAR_UUID;
    published.reverse();
    assert_eq!(published[..4], [0x12, 0x34, 0x00, 0x06]);
    assert_eq!(published[4..], *b"\x00\x00\x10\x00\x80\x00\x00\x80\x5f\x9b\x34\xfb");
}

#[test]
fn failed_registration_ends() {
    let mut setup = GattSetup::start();
    setup.sent();
    setup.received(&HciRead::TimedOut);
    assert_eq!(setup.step, GattSetupStep::Failed);
    assert_eq!(setup.handles(), None);
}

#[test]
fn value_handles_follow_the_declarations() {
    assert_eq!(handles().setup_confirm_value_handle(), 0x1d);
    assert_eq!(handles().motor_command_value_handle(), 0x1f);
    assert_eq!(GattHandles { motor_command: 0xffff, ..handles() }.motor_command_value_handle(), 0);
}

#[test]
fn six_values_are_published_most_significant_byte_first() {
    let snapshot = SensorSnapshot {
        air_temperature_centi: -2,
        air_pressure_pa: 100_653,
        air_humidity_centi_pct: 5500,
        soil_temperature_centi: 2170,
        soil_humidity_centi_pct: 4210,
    };
    let uuid = b"01234567-89ab-4def-8123-456789abcdef";
    let mut update = update_ble_environmental_values(9, &handles(), &snapshot, uuid);
    let mut published = Vec::new();
    while let Some(value) = update.update() {
        assert_eq!((value.service_handle, value.offset), (9, 0));
        published.push((value.characteristic_handle, value.value));
        update.sent(true);
        assert_eq!(update.update(), None);
        update.received(&HciRead::Failed);
        update.received(&complete(CommandReturn::GattUpdateCharacteristicValue { success: true }));
    }
    assert_eq!(update.step, UpdateStep::Finished(true));
    assert_eq!(
        published,
        [
            (0x10, uuid.to_vec()),
            (0x12, vec![0xff, 0xfe]),
            (0x14, vec![0x00, 0x01, 0x89, 0x2d]),
            (0x16, vec![0x15, 0x7c]),
            (0x18, vec![0x08, 0x7a]),
            (0x1a, vec![0x10, 0x72]),
        ]
    );
}

#[test]
fn publication_stops_at_the_first_failure() {
    let snapshot = SensorSnapshot::default();
    let mut refused = update_ble_environmental_values(9, &handles(), &snapshot, b"");
    refused.sent(false);
    assert_eq!(refused.step, UpdateStep::Finished(false));
    let mut failed = update_ble_environmental_values(9, &handles(), &snapshot, b"");
    failed.sent(true);
    failed.received(&complete(CommandReturn::GattUpdateCharacteristicValue { success: false }));
    assert_eq!(failed.step, UpdateStep::Finished(false));
    let mut late = update_ble_environmental_values(9, &handles(), &snapshot, b"");
    late.sent(true);
    late.received(&HciRead::TimedOut);
    assert_eq!(late.step, UpdateStep::Finished(false));
}

fn session() -> AdvertisingSession {
    run_advertising_session(&handles(), MotorCommandState::new(), MotorWatchdogState::new(), at_ms(0))
}

#[test]
fn session_without_a_central_stops_after_its_time() {
    let mut session = session();
    assert_eq!(session.step, SessionStep::Read { timeout_ms: 250 });
    session.next(SessionEvent::Read(HciRead::TimedOut), at_ms(59_999));
    assert_eq!(session.step, SessionStep::Read { timeout_ms: 250 });
    session.next(SessionEvent::Read(HciRead::TimedOut), at_ms(60_000));
    assert_eq!(session.step, SessionStep::StopDiscoverable);
    session.next(SessionEvent::StopSent, at_ms(60_001));
    assert_eq!(session.step, SessionStep::AwaitNondiscoverable);
    session.next(SessionEvent::Read(HciRead::Failed), at_ms(60_001));
    assert_eq!(session.step, SessionStep::AwaitNondiscoverable);
    session.next(SessionEvent::Read(HciRead::TimedOut), at_ms(65_001));
    assert_eq!(session.step, SessionStep::Ended);
    session.next(SessionEvent::Read(connected()), at_ms(65_002));
    assert_eq!(session.step, SessionStep::Ended);
    assert!(session.connection.is_none());
}

#[test]
fn session_ends_with_the_connection() {
    let mut session = session();
    session.next(SessionEvent::Read(connected()), at_ms(50_000));
    session.next(SessionEvent::Read(HciRead::TimedOut), at_ms(70_000));
    assert_eq!(session.step, SessionStep::Read { timeout_ms: 250 });
    session.next(SessionEvent::Read(disconnected()), at_ms(71_000));
    assert_eq!(session.step, SessionStep::Ended);
}

#[test]
fn failed_connection_leaves_the_session_advertising() {
    let mut session = session();
    let failed =
        HciRead::Event(HciEvent::LeConnectionComplete { success: false, conn_handle: 0x801 });
    session.next(SessionEvent::Read(failed), at_ms(1));
    assert!(session.connection.is_none());
    assert_eq!(session.step, SessionStep::Read { timeout_ms: 250 });
}

#[test]
fn stale_connection_is_terminated() {
    let mut session = session();
    session.next(SessionEvent::Read(connected()), at_ms(0));
    session.next(SessionEvent::Read(HciRead::TimedOut), at_ms(60_000));
    assert_eq!(session.step, SessionStep::Terminate { conn_handle: 0x801 });
    session.next(SessionEvent::Terminated { ok: true }, at_ms(60_010));
    assert_eq!(session.step, SessionStep::Read { timeout_ms: 250 });
    session.next(SessionEvent::Read(HciRead::TimedOut), at_ms(70_009));
    assert_eq!(session.step, SessionStep::Read { timeout_ms: 250 });
    session.next(SessionEvent::Read(HciRead::TimedOut), at_ms(70_011));
    assert_eq!(session.step, SessionStep::Terminate { conn_handle: 0x801 });
    session.next(SessionEvent::Terminated { ok: false }, at_ms(70_012));
    assert_eq!(session.step, SessionStep::Ended);
}

#[test]
fn session_counts_late_interrupts() {
    let mut session = session();
    for ms in 1..=3 {
        session.next(SessionEvent::Read(HciRead::Event(HciEvent::IsrDelay)), at_ms(ms));
    }
    assert_eq!(session.isr_delay_count, 3);
}

#[test]
fn motor_command_is_permitted_dispatched_and_stopped() {
    let mut session = session();
    session.next(SessionEvent::Read(connected()), at_ms(100));
    session.next(SessionEvent::Read(write_of(0x1f, &motor_payload(7))), at_ms(200));
    let SessionStep::Respond(reply) = &session.step else {
        panic!("no reply");
    };
    assert!(reply.permitted);
    assert_eq!(reply.request.value, motor_payload(7));
    assert!(matches!(session.write_outcome, Some(MotorCommandWriteOutcome::Accepted(_))));
    session.next(SessionEvent::Responded { ok: true }, at_ms(210));
    let SessionStep::Dispatch(dispatch) = &session.step else {
        panic!("no dispatch");
    };
    assert!(matches!(
        dispatch,
        probe_core::motor_uart::MotorDispatchStep::SendCommand { request, .. }
            if request.duration_ms == 1_000
    ));
    session.next(SessionEvent::MotorReply(MotorUartResult::Success), at_ms(300));
    assert_eq!(session.step, SessionStep::Read { timeout_ms: 250 });
    assert_eq!(session.watchdog.active_command_id(), Some(&[7; 16]));
    session.next(SessionEvent::Read(write_of(0x1f, &motor_payload(7))), at_ms(400));
    assert!(matches!(&session.step, SessionStep::Respond(reply) if !reply.permitted));
    assert_eq!(session.write_outcome, Some(MotorCommandWriteOutcome::DuplicateActive));
    session.next(SessionEvent::Responded { ok: true }, at_ms(1_301));
    assert_eq!(session.write_outcome, None);
    let stop = MotorUartAdapter::stop_motor(&[7; 16]);
    assert_eq!(session.step, SessionStep::StopMotor(stop));
    session.next(SessionEvent::MotorReply(MotorUartResult::Timeout), at_ms(1_460));
    assert_eq!(session.step, SessionStep::Read { timeout_ms: 250 });
    assert!(session.watchdog.active.is_none());
}

#[test]
fn other_writes_are_not_permitted() {
    let mut session = session();
    session.next(SessionEvent::Read(write_of(0x1d, &SETUP_COMPLETE_MAGIC)), at_ms(1));
    assert!(matches!(&session.step, SessionStep::Respond(reply) if !reply.permitted));
    session.next(SessionEvent::Responded { ok: true }, at_ms(2));
    assert_eq!(session.write_outcome, None);
    session.next(SessionEvent::Read(write_of(0x1f, b"junk")), at_ms(3));
    assert_eq!(
        session.write_outcome,
        Some(MotorCommandWriteOutcome::Invalid(MotorCommandValidationError::InvalidLength))
    );
    assert!(matches!(&session.step, SessionStep::Respond(reply) if !reply.permitted));
    session.next(SessionEvent::Responded { ok: false }, at_ms(4));
    assert_eq!(session.step, SessionStep::Ended);
}

#[test]
fn unanswered_motor_is_stopped_within_the_session() {
    let mut session = session();
    session.next(SessionEvent::Read(write_of(0x1f, &motor_payload(8))), at_ms(1));
    session.next(SessionEvent::Responded { ok: true }, at_ms(2));
    session.next(SessionEvent::MotorReply(MotorUartResult::Timeout), at_ms(160));
    assert!(matches!(
        &session.step,
        SessionStep::Dispatch(probe_core::motor_uart::MotorDispatchStep::SendStop { .. })
    ));
    session.next(SessionEvent::MotorReply(MotorUartResult::Success), at_ms(170));
    assert_eq!(session.step, SessionStep::Read { timeout_ms: 250 });
}

fn discoverable(success: bool) -> SetupEvent {
    SetupEvent::Read(complete(CommandReturn::GapSetDiscoverable { success }))
}

fn updated(success: bool) -> SetupEvent {
    SetupEvent::Read(complete(CommandReturn::GapUpdateAdvertisingData { success }))
}

fn waiting_setup() -> SetupSession {
    let mut setup = run_setup_advertising_session(&handles());
    assert_eq!(setup.step, SetupStep::SetScanResponse);
    setup.next(SetupEvent::Sent { ok: true }, at_ms(0));
    assert_eq!(setup.step, SetupStep::ReadScanResponse);
    setup.next(SetupEvent::Read(HciRead::Failed), at_ms(0));
    advertise_again(&mut setup);
    setup
}

fn advertise_again(setup: &mut SetupSession) {
    assert_eq!(setup.step, SetupStep::SetDiscoverable);
    setup.next(SetupEvent::Sent { ok: true }, at_ms(0));
    assert_eq!(setup.step, SetupStep::AwaitDiscoverable);
    setup.next(SetupEvent::Read(HciRead::Failed), at_ms(0));
    assert_eq!(setup.step, SetupStep::AwaitDiscoverable);
    setup.next(discoverable(true), at_ms(0));
    assert_eq!(setup.step, SetupStep::UpdateAdvertisingData);
    setup.next(SetupEvent::Sent { ok: true }, at_ms(0));
    assert_eq!(setup.step, SetupStep::AwaitAdvertisingData);
    setup.next(updated(true), at_ms(0));
    assert_eq!(setup.step, SetupStep::Read);
}

#[test]
fn setup_ends_once_the_hub_confirmed_and_left() {
    let mut setup = waiting_setup();
    setup.next(SetupEvent::Read(connected()), at_ms(10));
    setup.next(SetupEvent::Read(write_of(0x1d, &SETUP_COMPLETE_MAGIC)), at_ms(20));
    assert!(matches!(&setup.step, SetupStep::Respond(reply) if reply.permitted));
    setup.next(SetupEvent::Sent { ok: true }, at_ms(30));
    setup.next(SetupEvent::Read(disconnected()), at_ms(40));
    assert_eq!(setup.step, SetupStep::Ended { confirmed: true });
}

#[test]
fn setup_goes_on_when_the_hub_leaves_early() {
    let mut setup = waiting_setup();
    setup.next(SetupEvent::Read(connected()), at_ms(10));
    setup.next(SetupEvent::Read(disconnected()), at_ms(20));
    assert!(setup.connection.is_none());
    advertise_again(&mut setup);
}

#[test]
fn setup_permits_no_other_write() {
    let mut setup = waiting_setup();
    for (handle, value) in
        [(0x1du16, &b"HHSETUP2"[..]), (0x1f, &motor_payload(1)[..]), (0x1f, &b"HHSETUP1"[..])]
    {
        setup.next(SetupEvent::Read(write_of(handle, value)), at_ms(1));
        assert!(matches!(&setup.step, SetupStep::Respond(reply) if !reply.permitted));
        setup.next(SetupEvent::Sent { ok: true }, at_ms(2));
        assert!(!setup.confirmed);
    }
}

#[test]
fn setup_terminates_a_stale_connection() {
    let mut setup = waiting_setup();
    setup.next(SetupEvent::Read(connected()), at_ms(0));
    setup.next(SetupEvent::Read(HciRead::Event(HciEvent::IsrDelay)), at_ms(60_000));
    assert_eq!(setup.isr_delay_count, 1);
    assert_eq!(setup.step, SetupStep::Terminate { conn_handle: 0x801 });
    setup.next(SetupEvent::Sent { ok: true }, at_ms(60_001));
    assert_eq!(setup.step, SetupStep::Read);
    setup.next(SetupEvent::Read(HciRead::Failed), at_ms(70_002));
    assert_eq!(setup.step, SetupStep::Terminate { conn_handle: 0x801 });
    setup.next(SetupEvent::Sent { ok: false }, at_ms(70_003));
    assert_eq!(setup.step, SetupStep::Ended { confirmed: false });
}

#[test]
fn setup_fails_with_its_commands() {
    let failed = SetupStep::Ended { confirmed: false };
    let mut first = run_setup_advertising_session(&handles());
    first.next(SetupEvent::Sent { ok: false }, at_ms(0));
    assert_eq!(first.step, failed);
    let mut second = run_setup_advertising_session(&handles());
    second.next(SetupEvent::Sent { ok: true }, at_ms(0));
    second.next(SetupEvent::Read(HciRead::Failed), at_ms(0));
    second.next(SetupEvent::Sent { ok: true }, at_ms(0));
    second.next(discoverable(false), at_ms(0));
    assert_eq!(second.step, failed);
}

#[test]
fn mark_is_written_and_read() {
    assert!(first_boot_setup_is_pending(None));
    assert!(first_boot_setup_is_pending(Some([0xff; 8])));
    let erase = mark_first_boot_setup_complete();
    assert_eq!(erase, FlashStep::Erase { from: 188 * 1024, to: 192 * 1024 });
    assert_eq!(erase.performed(false), FlashStep::Finished { ok: false });
    let write = erase.performed(true);
    let FlashStep::Write { offset, data } = write else {
        panic!("nothing is written");
    };
    assert_eq!((offset, &data), (188 * 1024, b"HHSETUP1"));
    assert!(!first_boot_setup_is_pending(Some(data)));
    assert_eq!(write.performed(true), FlashStep::Finished { ok: true });
    assert_eq!(write.performed(false), FlashStep::Finished { ok: false });
}

#[test]
fn first_boot_goes_through_setup() {
    let mut life = Lifecycle::boot();
    assert_eq!(life.step, LifecycleStep::PublishInitial);
    assert_eq!(life.snapshot, SensorSnapshot::default());
    life.next(LifecycleEvent::Published { ok: true });
    life.next(LifecycleEvent::FlagRead(Some([0xff; 8])));
    assert_eq!(life.step, LifecycleStep::RunSetup);
    life.next(LifecycleEvent::SetupEnded { confirmed: false });
    assert_eq!(life.step, LifecycleStep::PauseSetup { ms: 1_000 });
    life.next(LifecycleEvent::Paused);
    life.next(LifecycleEvent::FlagRead(None));
    life.next(LifecycleEvent::SetupEnded { confirmed: true });
    assert_eq!(life.step, LifecycleStep::MarkSetupComplete);
    life.next(LifecycleEvent::Marked { ok: false });
    assert_eq!(life.step, LifecycleStep::PauseSetup { ms: 1_000 });
    life.next(LifecycleEvent::Paused);
    life.next(LifecycleEvent::FlagRead(None));
    life.next(LifecycleEvent::SetupEnded { confirmed: true });
    life.next(LifecycleEvent::Marked { ok: true });
    assert_eq!(life.step, LifecycleStep::ReadFlagAgain);
    life.next(LifecycleEvent::FlagRead(Some(SETUP_COMPLETE_MAGIC)));
    assert_eq!(life.step, LifecycleStep::RestoreScanResponse);
    life.next(LifecycleEvent::ScanResponseRestored);
    assert_eq!(life.step, LifecycleStep::Idle { ms: 30_000 });
}

#[test]
fn later_boot_skips_setup_and_a_lost_mark_the_scan_response() {
    let mut life = Lifecycle::boot();
    life.next(LifecycleEvent::Published { ok: true });
    life.next(LifecycleEvent::FlagRead(Some(SETUP_COMPLETE_MAGIC)));
    assert_eq!(life.step, LifecycleStep::ReadFlagAgain);
    life.next(LifecycleEvent::FlagRead(None));
    assert_eq!(life.step, LifecycleStep::Idle { ms: 30_000 });
}

#[test]
fn failed_first_publication_halts() {
    let mut life = Lifecycle::boot();
    life.next(LifecycleEvent::Published { ok: false });
    assert_eq!(life.step, LifecycleStep::Halted);
    life.next(LifecycleEvent::Published { ok: true });
    assert_eq!(life.step, LifecycleStep::Halted);
}

#[test]
fn cycle_runs_in_order() {
    let mut life = Lifecycle {
        snapshot: SensorSnapshot::default(),
        air: None,
        step: LifecycleStep::Idle { ms: 30_000 },
    };
    let air = Reading {
        temperature_centidegrees: 2508,
        pressure_pa: 100_653,
        humidity_q1024: 56_317,
        is_bmp280: false,
    };
    let soil = Zts3000Reading { humidity_tenths: 421, temperature_tenths: 217 };
    life.next(LifecycleEvent::Idled);
    assert_eq!(life.step, LifecycleStep::MeasureAir);
    life.next(LifecycleEvent::AirMeasured(Some(air)));
    assert_eq!(life.step, LifecycleStep::MeasureSoil);
    life.next(LifecycleEvent::SoilMeasured(Some(soil)));
    assert_eq!(life.step, LifecycleStep::Publish);
    assert_eq!(life.snapshot, SensorSnapshot::from_phase_results(Some(air), Some(soil)));
    life.next(LifecycleEvent::Published { ok: true });
    assert_eq!(life.step, LifecycleStep::SetDiscoverable);
    life.next(LifecycleEvent::Sent { ok: true });
    let done = complete(CommandReturn::GapSetDiscoverable { success: true });
    life.next(LifecycleEvent::Read(done));
    assert_eq!(life.step, LifecycleStep::UpdateAdvertisingData);
    life.next(LifecycleEvent::Sent { ok: true });
    let done = complete(CommandReturn::GapUpdateAdvertisingData { success: true });
    life.next(LifecycleEvent::Read(done));
    assert_eq!(life.step, LifecycleStep::Advertise);
    life.next(LifecycleEvent::SessionEnded);
    assert_eq!(life.step, LifecycleStep::Idle { ms: 30_000 });
}

#[test]
fn failed_cycle_idles_again() {
    for step in [
        LifecycleStep::Publish,
        LifecycleStep::SetDiscoverable,
        LifecycleStep::AwaitDiscoverable,
        LifecycleStep::UpdateAdvertisingData,
        LifecycleStep::AwaitAdvertisingData,
    ] {
        let mut life = Lifecycle { snapshot: SensorSnapshot::default(), air: None, step };
        life.next(LifecycleEvent::Published { ok: false });
        life.next(LifecycleEvent::Sent { ok: false });
        life.next(LifecycleEvent::Read(HciRead::TimedOut));
        assert_eq!(life.step, LifecycleStep::Idle { ms: 30_000 });
    }
}
