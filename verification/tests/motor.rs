//! Motor commands, frames, dispatch and the watchdog.
use probe_core::clock::Instant;
use probe_core::motor_command::{
    encode_motor_command_payload, parse_motor_command_payload,
    simulate_motor_command_duplicate_and_expiry_rules, MotorCommandAction, MotorCommandPayload,
    MotorCommandState, MotorCommandValidationError, MotorCommandWriteOutcome,
};
use probe_core::motor_uart::{
    dispatch_pending_motor_command, encode_motor_uart_frame, idle_with_motor_watchdog,
    motor_reason_code_for_uart_result, motor_uart_simulation_matrix_is_expected,
    parse_motor_uart_ack, simulate_motor_uart_ack_and_failsafe_matrix,
    timeout_failsafe_action_for_result, MotorDispatchOutcome, MotorDispatchStep, MotorIdleStep,
    MotorRequest, MotorTimeoutFailsafeAction, MotorUartAdapter, MotorUartResult, MotorUartStep,
    MotorWatchdogState,
};
use probe_core::uart::{UartError, UartRead};

fn command(id: u8, duration_ms: u32) -> MotorCommandPayload {
    MotorCommandPayload {
        action: MotorCommandAction::RunForDuration,
        command_id: [id; 16],
        duration_ms,
        expires_after_ms: 2_000,
    }
}

fn stop(id: u8) -> MotorCommandPayload {
    MotorCommandPayload { action: MotorCommandAction::Stop, ..command(id, 0) }
}

fn write(state: &mut MotorCommandState, id: u8, now_ms: u32) -> MotorCommandWriteOutcome {
    let payload = encode_motor_command_payload(&command(id, 1_000));
    state.handle_write_payload(&payload, now_ms, None)
}

fn at_ms(ms: u64) -> Instant {
    Instant { ticks: 0 }.after_millis(ms)
}

#[test]
fn command_is_encoded_byte_by_byte() {
    let bytes = encode_motor_command_payload(&MotorCommandPayload {
        action: MotorCommandAction::RunForDuration,
        command_id: [0xab; 16],
        duration_ms: 0x1234,
        expires_after_ms: 0x0102_0304,
    });
    assert_eq!(&bytes[..6], b"HHMC\x01\x01");
    assert_eq!(&bytes[6..22], &[0xab; 16]);
    assert_eq!(&bytes[22..], &[0x34, 0x12, 0, 0, 4, 3, 2, 1]);
}

#[test]
fn valid_commands_are_read_back() {
    for valid in [command(3, 0), command(4, 5_000), stop(5)] {
        let bytes = encode_motor_command_payload(&valid);
        assert_eq!(parse_motor_command_payload(&bytes, 0), Ok(valid));
    }
}

#[test]
fn each_fault_of_a_command_has_its_error() {
    let good = encode_motor_command_payload(&command(7, 1_000));
    let faulty = |at: usize, value: u8| {
        let mut bytes = good;
        bytes[at] = value;
        parse_motor_command_payload(&bytes, 0).unwrap_err()
    };
    assert_eq!(
        parse_motor_command_payload(&good[..29], 0),
        Err(MotorCommandValidationError::InvalidLength)
    );
    assert_eq!(faulty(3, b'X'), MotorCommandValidationError::InvalidMagic);
    assert_eq!(faulty(4, 2), MotorCommandValidationError::UnsupportedVersion);
    assert_eq!(faulty(5, 2), MotorCommandValidationError::UnknownAction);
    assert_eq!(faulty(24, 1), MotorCommandValidationError::DurationTooLong);
    let mut expired = good;
    expired[26..].fill(0);
    assert_eq!(
        parse_motor_command_payload(&expired, 0),
        Err(MotorCommandValidationError::Expired)
    );
    let mut both = expired;
    both[24] = 1;
    assert_eq!(
        parse_motor_command_payload(&both, 0),
        Err(MotorCommandValidationError::DurationTooLong)
    );
}

#[test]
fn accepted_command_waits_and_is_refused_again() {
    let mut state = MotorCommandState::new();
    assert_eq!(
        write(&mut state, 1, 10_000),
        MotorCommandWriteOutcome::Accepted(command(1, 1_000))
    );
    let pending = state.pending_request.unwrap();
    assert_eq!((pending.payload, pending.accepted_at_ms), (command(1, 1_000), 10_000));
    assert_eq!(write(&mut state, 1, 10_001), MotorCommandWriteOutcome::DuplicateActive);
    state.pending_request = None;
    assert_eq!(write(&mut state, 1, 10_002), MotorCommandWriteOutcome::Duplicate);
    let bytes = encode_motor_command_payload(&command(1, 1_000));
    assert_eq!(
        state.handle_write_payload(&bytes, 10_003, Some(&[1; 16])),
        MotorCommandWriteOutcome::DuplicateActive
    );
    assert_eq!(
        state.handle_write_payload(&bytes[1..], 10_003, None),
        MotorCommandWriteOutcome::Invalid(MotorCommandValidationError::InvalidLength)
    );
}

#[test]
fn identifiers_are_remembered_for_the_retention_time() {
    let mut state = MotorCommandState::new();
    write(&mut state, 1, u32::MAX - 10);
    state.pending_request = None;
    assert_eq!(write(&mut state, 1, 79_989), MotorCommandWriteOutcome::Duplicate);
    assert!(matches!(write(&mut state, 1, 79_990), MotorCommandWriteOutcome::Accepted(_)));
}

fn remembered(state: &MotorCommandState) -> Vec<Option<u8>> {
    state.accepted_history.iter().map(|slot| slot.map(|entry| entry.command_id[0])).collect()
}

#[test]
fn identifier_survives_any_number_of_later_commands() {
    let mut state = MotorCommandState::new();
    for id in 1..=100u8 {
        let outcome = write(&mut state, id, id as u32 - 1);
        assert!(matches!(outcome, MotorCommandWriteOutcome::Accepted(_)));
    }
    let waiting = state.pending_request;
    for id in 1..=99u8 {
        assert_eq!(write(&mut state, id, 80_000), MotorCommandWriteOutcome::Duplicate);
    }
    assert_eq!(write(&mut state, 100, 80_000), MotorCommandWriteOutcome::DuplicateActive);
    assert_eq!(state.pending_request, waiting);
    assert!(matches!(write(&mut state, 1, 80_001), MotorCommandWriteOutcome::Accepted(_)));
    assert_eq!(write(&mut state, 2, 80_001), MotorCommandWriteOutcome::Duplicate);
}

#[test]
fn commands_of_one_millisecond_are_all_remembered() {
    let mut state = MotorCommandState::new();
    assert_eq!(remembered(&state), [None; 4]);
    for id in 1..=4u8 {
        write(&mut state, id, 100);
    }
    write(&mut state, 5, 200);
    assert_eq!(remembered(&state), [Some(1), Some(2), Some(3), Some(4), Some(5)]);
    for id in 1..=4u8 {
        assert_eq!(write(&mut state, id, 300), MotorCommandWriteOutcome::Duplicate);
    }
}

#[test]
fn slots_of_forgotten_identifiers_are_used_again() {
    let mut state = MotorCommandState::new();
    for id in 1..=5u8 {
        write(&mut state, id, id as u32 * 10_000);
    }
    write(&mut state, 6, 100_001);
    assert_eq!(remembered(&state), [Some(6), None, Some(3), Some(4), Some(5)]);
}

#[test]
fn history_is_pruned_and_searched() {
    let mut state = MotorCommandState::new();
    write(&mut state, 1, 0);
    assert!(state.is_duplicate(&[1; 16], 80_000));
    assert!(!state.is_duplicate(&[1; 16], 80_001));
    assert!(!state.is_duplicate(&[2; 16], 1));
    state.prune_expired_history(80_000);
    assert!(state.accepted_history[0].is_some());
    state.prune_expired_history(80_001);
    assert!(state.accepted_history[0].is_none());
    state.record_accepted(&command(9, 1), 5);
    assert_eq!(state.accepted_history[0].unwrap().accepted_at_ms, 5);
}

#[test]
fn self_tests_pass() {
    assert!(simulate_motor_command_duplicate_and_expiry_rules());
    let matrix = simulate_motor_uart_ack_and_failsafe_matrix();
    assert!(motor_uart_simulation_matrix_is_expected(matrix));
    assert_eq!(matrix.rejected_ack, MotorUartResult::Rejected { status: 7 });
    let mut other = matrix;
    other.marker_distinct_from_zts3000_request = false;
    assert!(!motor_uart_simulation_matrix_is_expected(other));
}

#[test]
fn frame_is_encoded_byte_by_byte() {
    let frame = encode_motor_uart_frame(1, &[0xcd; 16], 5_000);
    assert_eq!(&frame[..6], b"HHMC\x01\x01");
    assert_eq!(&frame[6..22], &[0xcd; 16]);
    assert_eq!(&frame[22..], &[0x88, 0x13, 0, 0]);
}

#[test]
fn acknowledgements_are_parsed() {
    assert_eq!(parse_motor_uart_ack(b"HHMC\x01\x00"), MotorUartResult::Success);
    assert_eq!(parse_motor_uart_ack(b"HHMC\x01\x00trailing"), MotorUartResult::Success);
    assert_eq!(parse_motor_uart_ack(b"HHMC\x01\x09"), MotorUartResult::Rejected { status: 9 });
    assert_eq!(parse_motor_uart_ack(b"HHMC\x01"), MotorUartResult::InvalidResponse);
    assert_eq!(parse_motor_uart_ack(b"HHMD\x01\x00"), MotorUartResult::InvalidResponse);
    assert_eq!(parse_motor_uart_ack(b"HHMC\x02\x00"), MotorUartResult::InvalidResponse);
    let soil = [0x01, 0x03, 0x04, 0x01, 0xa5, 0x00, 0xd9, 0x2a, 0x76];
    assert_eq!(parse_motor_uart_ack(&soil), MotorUartResult::InvalidResponse);
}

#[test]
fn exchange_with_the_motor() {
    let request = MotorUartAdapter::run_motor_for_duration(&[2; 16], 9_000);
    assert_eq!(request, MotorRequest { action: 1, command_id: [2; 16], duration_ms: 5_000 });
    assert_eq!(
        MotorUartAdapter::stop_motor(&[2; 16]),
        MotorRequest { action: 0, command_id: [2; 16], duration_ms: 0 }
    );
    let frame = encode_motor_uart_frame(1, &[2; 16], 5_000);
    assert_eq!(MotorUartAdapter::send_command(&request), MotorUartStep::Write { frame });
    assert_eq!(MotorUartAdapter::written(Ok(())), MotorUartStep::Flush);
    assert_eq!(MotorUartAdapter::flushed(Ok(())), MotorUartStep::Receive { timeout_ms: 150 });
    let failed = MotorUartStep::Finished(MotorUartResult::UartError);
    assert_eq!(MotorUartAdapter::written(Err(UartError::Noise)), failed);
    assert_eq!(MotorUartAdapter::flushed(Err(UartError::Noise)), failed);
    assert_eq!(MotorUartAdapter::received(&UartRead::Failed(UartError::Noise)), failed);
    assert_eq!(
        MotorUartAdapter::received(&UartRead::TimedOut),
        MotorUartStep::Finished(MotorUartResult::Timeout)
    );
    assert_eq!(
        MotorUartAdapter::received(&UartRead::Received(b"HHMC\x01\x00".to_vec())),
        MotorUartStep::Finished(MotorUartResult::Success)
    );
}

#[test]
fn reason_codes_and_failsafe() {
    let results = [
        (MotorUartResult::Success, "NONE"),
        (MotorUartResult::Timeout, "UART_TIMEOUT"),
        (MotorUartResult::UartError, "UART_TIMEOUT"),
        (MotorUartResult::Rejected { status: 1 }, "UART_REJECTED"),
        (MotorUartResult::InvalidResponse, "UART_REJECTED"),
    ];
    for (result, code) in results {
        assert_eq!(motor_reason_code_for_uart_result(result), code);
        let stop = timeout_failsafe_action_for_result(result)
            == MotorTimeoutFailsafeAction::SendBestEffortStop;
        assert_eq!(stop, result == MotorUartResult::Timeout);
    }
}

#[test]
fn run_is_watched_and_stopped_in_time() {
    let mut state = MotorCommandState::new();
    write(&mut state, 6, 0);
    let mut watchdog = MotorWatchdogState::new();
    let step = dispatch_pending_motor_command(&mut state, 100);
    let request = MotorRequest { action: 1, command_id: [6; 16], duration_ms: 1_000 };
    assert_eq!(step, MotorDispatchStep::SendCommand { request, payload: command(6, 1_000) });
    assert!(state.pending_request.is_none());
    let done = step.sent(MotorUartResult::Success, &mut watchdog, at_ms(200));
    assert_eq!(
        done,
        MotorDispatchStep::Done(Some(MotorDispatchOutcome::RunStarted {
            command_id: [6; 16],
            duration_ms: 1_000,
        }))
    );
    assert_eq!(watchdog.active_command_id(), Some(&[6; 16]));
    assert_eq!(watchdog.enforce_elapsed(at_ms(1_199)), None);
    let stop = MotorRequest { action: 0, command_id: [6; 16], duration_ms: 0 };
    assert_eq!(watchdog.enforce_elapsed(at_ms(1_201)), Some(stop));
    assert_eq!(watchdog.active_command_id(), None);
    assert_eq!(watchdog.enforce_elapsed(at_ms(1_300)), None);
}

#[test]
fn watchdog_cuts_long_runs() {
    let mut watchdog = MotorWatchdogState::new();
    watchdog.arm([1; 16], 60_000, at_ms(0));
    assert_eq!(watchdog.active.unwrap().deadline, at_ms(5_000));
    watchdog.disarm();
    assert!(watchdog.active.is_none());
}

#[test]
fn expired_command_is_not_sent() {
    let mut state = MotorCommandState::new();
    assert_eq!(dispatch_pending_motor_command(&mut state, 0), MotorDispatchStep::Done(None));
    write(&mut state, 6, 0);
    assert_eq!(
        dispatch_pending_motor_command(&mut state, 2_000),
        MotorDispatchStep::Done(Some(MotorDispatchOutcome::ExpiredBeforeDispatch {
            command_id: [6; 16],
        }))
    );
    assert_eq!(dispatch_pending_motor_command(&mut state, 2_001), MotorDispatchStep::Done(None));
}

#[test]
fn unacknowledged_run_is_stopped() {
    let mut state = MotorCommandState::new();
    write(&mut state, 6, 0);
    let mut watchdog = MotorWatchdogState::new();
    watchdog.arm([1; 16], 1_000, at_ms(0));
    let step = dispatch_pending_motor_command(&mut state, 1);
    let outcome = MotorDispatchOutcome::Failed {
        command_id: [6; 16],
        action: MotorCommandAction::RunForDuration,
        result: MotorUartResult::Timeout,
    };
    let step = step.sent(MotorUartResult::Timeout, &mut watchdog, at_ms(151));
    let request = MotorRequest { action: 0, command_id: [6; 16], duration_ms: 0 };
    assert_eq!(step, MotorDispatchStep::SendStop { request, outcome });
    let step = step.sent(MotorUartResult::Timeout, &mut watchdog, at_ms(301));
    assert_eq!(step, MotorDispatchStep::Done(Some(outcome)));
    assert!(watchdog.active.is_none());
}

#[test]
fn stop_command_ends_the_watch_only_when_acknowledged() {
    let mut watchdog = MotorWatchdogState::new();
    watchdog.arm([1; 16], 1_000, at_ms(0));
    let step = MotorDispatchStep::SendCommand {
        request: MotorUartAdapter::stop_motor(&[3; 16]),
        payload: stop(3),
    };
    let failed = step.sent(MotorUartResult::Timeout, &mut watchdog, at_ms(1));
    assert_eq!(
        failed,
        MotorDispatchStep::Done(Some(MotorDispatchOutcome::Failed {
            command_id: [3; 16],
            action: MotorCommandAction::Stop,
            result: MotorUartResult::Timeout,
        }))
    );
    assert!(watchdog.active.is_some());
    let stopped = step.sent(MotorUartResult::Success, &mut watchdog, at_ms(2));
    assert_eq!(
        stopped,
        MotorDispatchStep::Done(Some(MotorDispatchOutcome::Stopped { command_id: [3; 16] }))
    );
    assert!(watchdog.active.is_none());
}

#[test]
fn idling_looks_at_the_watchdog_often() {
    let idle = idle_with_motor_watchdog(1_000, at_ms(0));
    let mut watchdog = MotorWatchdogState::new();
    watchdog.arm([4; 16], 400, at_ms(0));
    assert_eq!(idle.look(&mut watchdog, at_ms(0)), MotorIdleStep::Sleep { ms: 100 });
    let stop = MotorUartAdapter::stop_motor(&[4; 16]);
    assert_eq!(idle.look(&mut watchdog, at_ms(401)), MotorIdleStep::StopMotor(stop));
    assert!(watchdog.active.is_none());
    assert_eq!(idle.stopped(at_ms(420)), MotorIdleStep::Sleep { ms: 100 });
    assert_eq!(idle.look(&mut watchdog, at_ms(950)), MotorIdleStep::Sleep { ms: 49 });
    assert_eq!(idle.look(&mut watchdog, at_ms(1_000)), MotorIdleStep::Done);
    assert_eq!(idle.stopped(at_ms(2_000)), MotorIdleStep::Done);
}
