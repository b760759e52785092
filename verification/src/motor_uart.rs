//! Motor control over the serial port: frames, acknowledgements, dispatch of the waiting command,
//! and the watchdog that stops a motor which has run its time.
//!
//! The motor shares its port with the soil sensor. A frame is 26 bytes: the marker "HHMC", the
//! version, the action, the 16 bytes of the command identifier, and the run time in milliseconds,
//! least significant byte first. An acknowledgement is the marker, the version, and a status byte.
use vstd::prelude::*;

use crate::bytes::{starts_with, u32_to_le};
use crate::clock::Instant;
use crate::config::IDLE_CHUNK_MS;
use crate::motor_command::{
    CommandId, MotorCommandAction, MotorCommandPayload, MotorCommandState,
    MOTOR_COMMAND_ACTION_RUN_FOR_DURATION, MOTOR_COMMAND_ACTION_STOP, MOTOR_COMMAND_MAX_DURATION_MS,
};
use crate::uart::{UartError, UartRead};
use crate::zts3000::ZTS3000_READ_HUM_TEMP;

verus! {

/// "HHMC".
pub const MOTOR_UART_FRAME_MARKER: [u8; 4] = [0x48, 0x48, 0x4d, 0x43];

pub const MOTOR_UART_FRAME_VERSION: u8 = 1;

pub const MOTOR_UART_FRAME_LEN: usize = 26;

pub const MOTOR_UART_ACK_STATUS_OFFSET: usize = 5;

pub const MOTOR_UART_ACK_MIN_LEN: usize = 6;

pub const MOTOR_UART_ACK_STATUS_SUCCESS: u8 = 0;

/// How long the motor has to acknowledge a frame.
pub const MOTOR_UART_RESPONSE_TIMEOUT_MS: u64 = 150;

/// Outcome of an exchange with the motor.
#[derive(Clone, Copy, Debug, PartialEq, Eq, Structural)]
pub enum MotorUartResult {
    Success,
    Rejected { status: u8 },
    InvalidResponse,
    Timeout,
    UartError,
}

/// What became of a command that waited.
#[derive(Clone, Copy, Debug, PartialEq, Eq)]
pub enum MotorDispatchOutcome {
    RunStarted { command_id: CommandId, duration_ms: u32 },
    Stopped { command_id: CommandId },
    Failed { command_id: CommandId, action: MotorCommandAction, result: MotorUartResult },
    ExpiredBeforeDispatch { command_id: CommandId },
}

#[derive(Clone, Copy, Debug, PartialEq, Eq, Structural)]
pub enum MotorTimeoutFailsafeAction {
    SendBestEffortStop,
    NoImmediateStop,
}

/// Results of the self test of the motor protocol.
#[derive(Clone, Copy, Debug, PartialEq, Eq, Structural)]
pub struct MotorUartSimulationMatrix {
    pub valid_ack: MotorUartResult,
    pub rejected_ack: MotorUartResult,
    pub invalid_ack: MotorUartResult,
    pub timeout_failsafe: MotorTimeoutFailsafeAction,
    pub marker_distinct_from_zts3000_request: bool,
}

/// What the motor is asked to do.
#[derive(Clone, Copy, Debug, PartialEq, Eq)]
pub struct MotorRequest {
    pub action: u8,
    pub command_id: CommandId,
    pub duration_ms: u32,
}

impl MotorRequest {
    /// The frame of this request.
    pub open spec fn frame(self) -> Seq<u8> {
        encoded_frame(self.action, self.command_id@, self.duration_ms)
    }
}

/// The frame of a request.
pub open spec fn encoded_frame(action: u8, command_id: Seq<u8>, duration_ms: u32) -> Seq<u8> {
    MOTOR_UART_FRAME_MARKER@ + seq![MOTOR_UART_FRAME_VERSION, action] + command_id
        + crate::bytes::le_bytes(duration_ms as int, 4)
}

/// What an acknowledgement says.
pub open spec fn parsed_ack(ack: Seq<u8>) -> MotorUartResult {
    if ack.len() < MOTOR_UART_ACK_MIN_LEN || ack.subrange(0, 4) != MOTOR_UART_FRAME_MARKER@
        || ack[4] != MOTOR_UART_FRAME_VERSION {
        MotorUartResult::InvalidResponse
    } else if ack[5] == MOTOR_UART_ACK_STATUS_SUCCESS {
        MotorUartResult::Success
    } else {
        MotorUartResult::Rejected { status: ack[5] }
    }
}

/// The request to stop the motor.
pub open spec fn stop_request(command_id: CommandId) -> MotorRequest {
    MotorRequest { action: MOTOR_COMMAND_ACTION_STOP, command_id, duration_ms: 0 }
}

/// A run time, cut to the longest one.
pub open spec fn clamped_duration(duration_ms: u32) -> u32 {
    if duration_ms <= MOTOR_COMMAND_MAX_DURATION_MS {
        duration_ms
    } else {
        MOTOR_COMMAND_MAX_DURATION_MS
    }
}

/// The request to run the motor.
pub open spec fn run_request(command_id: CommandId, duration_ms: u32) -> MotorRequest {
    MotorRequest {
        action: MOTOR_COMMAND_ACTION_RUN_FOR_DURATION,
        command_id,
        duration_ms: clamped_duration(duration_ms),
    }
}

/// The request that carries out a command.
pub open spec fn request_for(payload: MotorCommandPayload) -> MotorRequest {
    match payload.action {
        MotorCommandAction::Stop => stop_request(payload.command_id),
        MotorCommandAction::RunForDuration => run_request(payload.command_id, payload.duration_ms),
    }
}

fn clamp_duration(duration_ms: u32) -> (r: u32)
    ensures
        r == clamped_duration(duration_ms),
{
    if duration_ms <= MOTOR_COMMAND_MAX_DURATION_MS {
        duration_ms
    } else {
        MOTOR_COMMAND_MAX_DURATION_MS
    }
}

/// The bytes that ask the motor for `action`.
pub fn encode_motor_uart_frame(action: u8, command_id: &CommandId, duration_ms: u32) -> (r: [u8; 26])
    ensures
        r@ == encoded_frame(action, command_id@, duration_ms),
{
    let marker = MOTOR_UART_FRAME_MARKER;
    let id = *command_id;
    let duration = u32_to_le(duration_ms);
    let r = [
        marker[0],
        marker[1],
        marker[2],
        marker[3],
        MOTOR_UART_FRAME_VERSION,
        action,
        id[0],
        id[1],
        id[2],
        id[3],
        id[4],
        id[5],
        id[6],
        id[7],
        id[8],
        id[9],
        id[10],
        id[11],
        id[12],
        id[13],
        id[14],
        id[15],
        duration[0],
        duration[1],
        duration[2],
        duration[3],
    ];
    assert(r@ =~= encoded_frame(action, command_id@, duration_ms));
    r
}

/// Reads the acknowledgement of the motor.
pub fn parse_motor_uart_ack(ack: &[u8]) -> (r: MotorUartResult)
    ensures
        r == parsed_ack(ack@),
{
    if ack.len() < MOTOR_UART_ACK_MIN_LEN {
        return MotorUartResult::InvalidResponse;
    }
    let marker = MOTOR_UART_FRAME_MARKER;
    if !starts_with(ack, marker.as_slice()) {
        return MotorUartResult::InvalidResponse;
    }
    if ack[marker.len()] != MOTOR_UART_FRAME_VERSION {
        return MotorUartResult::InvalidResponse;
    }
    let status = ack[MOTOR_UART_ACK_STATUS_OFFSET];
    if status == MOTOR_UART_ACK_STATUS_SUCCESS {
        MotorUartResult::Success
    } else {
        MotorUartResult::Rejected { status }
    }
}

/// What to do next in an exchange with the motor.
#[derive(Clone, Copy, Debug, PartialEq, Eq)]
pub enum MotorUartStep {
    Write { frame: [u8; 26] },
    Flush,
    Receive { timeout_ms: u64 },
    Finished(MotorUartResult),
}

impl MotorUartStep {
    /// The step after the frame was written, or could not be.
    pub open spec fn after_writing(result: Result<(), UartError>) -> MotorUartStep {
        match result {
            Ok(_) => MotorUartStep::Flush,
            Err(_) => MotorUartStep::Finished(MotorUartResult::UartError),
        }
    }

    /// The step after the frame has left the port, or could not.
    pub open spec fn after_flushing(result: Result<(), UartError>) -> MotorUartStep {
        match result {
            Ok(_) => MotorUartStep::Receive { timeout_ms: MOTOR_UART_RESPONSE_TIMEOUT_MS },
            Err(_) => MotorUartStep::Finished(MotorUartResult::UartError),
        }
    }

    /// What the exchange comes to once the wait for the acknowledgement is over.
    pub open spec fn outcome(read: UartRead) -> MotorUartResult {
        match read {
            UartRead::Received(ack) => parsed_ack(ack@),
            UartRead::Failed(_) => MotorUartResult::UartError,
            UartRead::TimedOut => MotorUartResult::Timeout,
        }
    }
}

/// The exchange with the motor.
pub struct MotorUartAdapter;

impl MotorUartAdapter {
    /// Asks the motor to run for a while, never longer than the limit.
    pub fn run_motor_for_duration(command_id: &CommandId, duration_ms: u32) -> (r: MotorRequest)
        ensures
            r == run_request(*command_id, duration_ms),
    {
        MotorRequest {
            action: MOTOR_COMMAND_ACTION_RUN_FOR_DURATION,
            command_id: *command_id,
            duration_ms: clamp_duration(duration_ms),
        }
    }

    /// Asks the motor to stop.
    pub fn stop_motor(command_id: &CommandId) -> (r: MotorRequest)
        ensures
            r == stop_request(*command_id),
    {
        MotorRequest { action: MOTOR_COMMAND_ACTION_STOP, command_id: *command_id, duration_ms: 0 }
    }

    /// Starts the exchange: the frame of the request is written first.
    pub fn send_command(request: &MotorRequest) -> (r: MotorUartStep)
        ensures
            r matches MotorUartStep::Write { frame } && frame@ == request.frame(),
            r matches MotorUartStep::Write { frame } && frame@ == encoded_frame(
                request.action,
                request.command_id@,
                request.duration_ms,
            ),
    {
        MotorUartStep::Write {
            frame: encode_motor_uart_frame(
                request.action,
                &request.command_id,
                request.duration_ms,
            ),
        }
    }

    /// The frame was written, or could not be.
    pub fn written(result: Result<(), UartError>) -> (r: MotorUartStep)
        ensures
            r == MotorUartStep::after_writing(result),
            r == match result {
                Ok(_) => MotorUartStep::Flush,
                Err(_) => MotorUartStep::Finished(MotorUartResult::UartError),
            },
    {
        match result {
            Ok(_) => MotorUartStep::Flush,
            Err(_) => MotorUartStep::Finished(MotorUartResult::UartError),
        }
    }

    /// The frame has left the port, or could not.
    pub fn flushed(result: Result<(), UartError>) -> (r: MotorUartStep)
        ensures
            r == MotorUartStep::after_flushing(result),
            r == match result {
                Ok(_) => MotorUartStep::Receive { timeout_ms: MOTOR_UART_RESPONSE_TIMEOUT_MS },
                Err(_) => MotorUartStep::Finished(MotorUartResult::UartError),
            },
    {
        match result {
            Ok(_) => MotorUartStep::Receive { timeout_ms: MOTOR_UART_RESPONSE_TIMEOUT_MS },
            Err(_) => MotorUartStep::Finished(MotorUartResult::UartError),
        }
    }

    /// The wait for the acknowledgement is over.
    pub fn received(read: &UartRead) -> (r: MotorUartStep)
        ensures
            r == MotorUartStep::Finished(MotorUartStep::outcome(*read)),
            r == MotorUartStep::Finished(
                match *read {
                    UartRead::Received(ack) => parsed_ack(ack@),
                    UartRead::Failed(_) => MotorUartResult::UartError,
                    UartRead::TimedOut => MotorUartResult::Timeout,
                },
            ),
    {
        MotorUartStep::Finished(
            match read {
                UartRead::Received(ack) => parse_motor_uart_ack(ack.as_slice()),
                UartRead::Failed(_) => MotorUartResult::UartError,
                UartRead::TimedOut => MotorUartResult::Timeout,
            },
        )
    }
}

/// A run of the motor that has to end at `deadline`.
#[derive(Clone, Copy, Debug, PartialEq, Eq)]
pub struct MotorActiveCommand {
    pub command_id: CommandId,
    pub deadline: Instant,
}

/// Watches the run of the motor.
#[derive(Clone, Copy, Debug, PartialEq, Eq)]
pub struct MotorWatchdogState {
    pub active: Option<MotorActiveCommand>,
}

impl MotorWatchdogState {
    /// The run started at `now` for `duration_ms`, as the watchdog sees it.
    pub open spec fn armed(command_id: CommandId, duration_ms: u32, now: Instant) -> MotorWatchdogState {
        MotorWatchdogState {
            active: Some(
                MotorActiveCommand {
                    command_id,
                    deadline: now.plus_ms(clamped_duration(duration_ms) as int),
                },
            ),
        }
    }

    /// The motor has run its time.
    pub open spec fn is_due(self, now: Instant) -> bool {
        self.active matches Some(active) && now.ticks >= active.deadline.ticks
    }

    /// Nothing runs.
    pub fn new() -> (r: MotorWatchdogState)
        ensures
            r.active is None,
    {
        MotorWatchdogState { active: None }
    }

    /// A run of `duration_ms`, cut to the limit, started at `now`.
    pub fn arm(&mut self, command_id: CommandId, duration_ms: u32, now: Instant)
        requires
            now.valid(),
        ensures
            *final(self) == MotorWatchdogState::armed(command_id, duration_ms, now),
    {
        let deadline = now.after_millis(clamp_duration(duration_ms) as u64);
        self.active = Some(MotorActiveCommand { command_id, deadline });
    }

    /// Nothing runs any more.
    pub fn disarm(&mut self)
        ensures
            final(self).active is None,
    {
        self.active = None;
    }

    /// The command that runs.
    pub fn active_command_id(&self) -> (r: Option<&CommandId>)
        ensures
            crate::motor_command::id_view(r) == match self.active {
                Some(active) => Some(active.command_id@),
                None => None,
            },
    {
        match &self.active {
            Some(active) => Some(&active.command_id),
            None => None,
        }
    }

    /// Once the motor has run its time, hands out the request to stop it and ends the watch. The
    /// watch ends whatever becomes of the request.
    pub fn enforce_elapsed(&mut self, now: Instant) -> (r: Option<MotorRequest>)
        ensures
            old(self).is_due(now) ==> {
                &&& r == Some(stop_request(old(self).active.unwrap().command_id))
                &&& final(self).active is None
            },
            !old(self).is_due(now) ==> r is None && *final(self) == *old(self),
    {
        match self.active {
            Some(active) => {
                if !now.reached(active.deadline) {
                    return None;
                }
                self.disarm();
                Some(MotorUartAdapter::stop_motor(&active.command_id))
            },
            None => None,
        }
    }
}

pub open spec fn failsafe_for(result: MotorUartResult) -> MotorTimeoutFailsafeAction {
    if result is Timeout {
        MotorTimeoutFailsafeAction::SendBestEffortStop
    } else {
        MotorTimeoutFailsafeAction::NoImmediateStop
    }
}

/// Only where no acknowledgement came does a failed run call for a stop: the motor may be running.
pub fn timeout_failsafe_action_for_result(result: MotorUartResult) -> (r: MotorTimeoutFailsafeAction)
    ensures
        r == failsafe_for(result),
{
    if result == MotorUartResult::Timeout {
        MotorTimeoutFailsafeAction::SendBestEffortStop
    } else {
        MotorTimeoutFailsafeAction::NoImmediateStop
    }
}

/// How the log names an outcome.
pub open spec fn reason_code(result: MotorUartResult) -> Seq<char> {
    match result {
        MotorUartResult::Success => "NONE"@,
        MotorUartResult::Timeout => "UART_TIMEOUT"@,
        MotorUartResult::UartError => "UART_TIMEOUT"@,
        MotorUartResult::Rejected { .. } => "UART_REJECTED"@,
        MotorUartResult::InvalidResponse => "UART_REJECTED"@,
    }
}

/// How the log names an outcome.
pub fn motor_reason_code_for_uart_result(result: MotorUartResult) -> (r: &'static str)
    ensures
        r@ == reason_code(result),
        r@ == match result {
            MotorUartResult::Success => "NONE"@,
            MotorUartResult::Timeout => "UART_TIMEOUT"@,
            MotorUartResult::UartError => "UART_TIMEOUT"@,
            MotorUartResult::Rejected { .. } => "UART_REJECTED"@,
            MotorUartResult::InvalidResponse => "UART_REJECTED"@,
        },
{
    match result {
        MotorUartResult::Success => "NONE",
        MotorUartResult::Timeout | MotorUartResult::UartError => "UART_TIMEOUT",
        MotorUartResult::Rejected { .. } | MotorUartResult::InvalidResponse => "UART_REJECTED",
    }
}

/// What to do next to dispatch the command that waits.
#[derive(Clone, Copy, Debug, PartialEq, Eq)]
pub enum MotorDispatchStep {
    /// Send `request`, which carries out `payload`.
    SendCommand { request: MotorRequest, payload: MotorCommandPayload },
    /// Send `request`, a stop whose result does not matter.
    SendStop { request: MotorRequest, outcome: MotorDispatchOutcome },
    Done(Option<MotorDispatchOutcome>),
}

/// The command has outlived its life at `now_ms`.
pub open spec fn has_expired(
    pending: crate::motor_command::PendingMotorCommandRequest,
    now_ms: u32,
) -> bool {
    crate::motor_command::age_ms(now_ms, pending.accepted_at_ms) >= pending.payload.expires_after_ms
}

/// The first step to dispatch the command that waits in `state`.
pub open spec fn first_step(state: MotorCommandState, now_ms: u32) -> MotorDispatchStep {
    match state.pending_request {
        None => MotorDispatchStep::Done(None),
        Some(pending) => if has_expired(pending, now_ms) {
            MotorDispatchStep::Done(
                Some(
                    MotorDispatchOutcome::ExpiredBeforeDispatch {
                        command_id: pending.payload.command_id,
                    },
                ),
            )
        } else {
            MotorDispatchStep::SendCommand {
                request: request_for(pending.payload),
                payload: pending.payload,
            }
        },
    }
}

/// Takes the command that waits and starts to dispatch it, unless it has expired.
pub fn dispatch_pending_motor_command(state: &mut MotorCommandState, now_ms: u32) -> (r:
    MotorDispatchStep)
    ensures
        *final(state) == (MotorCommandState { pending_request: None, ..*old(state) }),
        r == first_step(*old(state), now_ms),
{
    let pending = match state.pending_request {
        Some(pending) => pending,
        None => return MotorDispatchStep::Done(None),
    };
    state.pending_request = None;
    let age_ms = now_ms.wrapping_sub(pending.accepted_at_ms);
    assert(age_ms == crate::motor_command::age_ms(now_ms, pending.accepted_at_ms));
    let payload = pending.payload;
    if age_ms >= payload.expires_after_ms {
        return MotorDispatchStep::Done(
            Some(
                MotorDispatchOutcome::ExpiredBeforeDispatch { command_id: payload.command_id },
            ),
        );
    }
    let request = match payload.action {
        MotorCommandAction::Stop => MotorUartAdapter::stop_motor(&payload.command_id),
        MotorCommandAction::RunForDuration => {
            MotorUartAdapter::run_motor_for_duration(&payload.command_id, payload.duration_ms)
        },
    };
    MotorDispatchStep::SendCommand { request, payload }
}

impl MotorDispatchStep {
    /// The step that follows once the request of this one came to `result`.
    pub open spec fn after(self, result: MotorUartResult) -> MotorDispatchStep {
        match self {
            MotorDispatchStep::SendCommand { payload, .. } => {
                let command_id = payload.command_id;
                let failed = MotorDispatchOutcome::Failed {
                    command_id,
                    action: payload.action,
                    result,
                };
                match (payload.action, result) {
                    (MotorCommandAction::Stop, MotorUartResult::Success) => {
                        MotorDispatchStep::Done(
                            Some(MotorDispatchOutcome::Stopped { command_id }),
                        )
                    },
                    (MotorCommandAction::RunForDuration, MotorUartResult::Success) => {
                        MotorDispatchStep::Done(
                            Some(
                                MotorDispatchOutcome::RunStarted {
                                    command_id,
                                    duration_ms: clamped_duration(payload.duration_ms),
                                },
                            ),
                        )
                    },
                    (MotorCommandAction::RunForDuration, MotorUartResult::Timeout) => {
                        MotorDispatchStep::SendStop {
                            request: stop_request(command_id),
                            outcome: failed,
                        }
                    },
                    _ => MotorDispatchStep::Done(Some(failed)),
                }
            },
            MotorDispatchStep::SendStop { outcome, .. } => MotorDispatchStep::Done(Some(outcome)),
            MotorDispatchStep::Done(outcome) => MotorDispatchStep::Done(outcome),
        }
    }

    /// The watchdog once the request of this step came to `result` at `now`.
    pub open spec fn watchdog_after(
        self,
        watchdog: MotorWatchdogState,
        result: MotorUartResult,
        now: Instant,
    ) -> MotorWatchdogState {
        match self {
            MotorDispatchStep::SendCommand { payload, .. } => match (payload.action, result) {
                (MotorCommandAction::Stop, MotorUartResult::Success) => MotorWatchdogState {
                    active: None,
                },
                (
                    MotorCommandAction::RunForDuration,
                    MotorUartResult::Success,
                ) => MotorWatchdogState::armed(payload.command_id, payload.duration_ms, now),
                _ => watchdog,
            },
            MotorDispatchStep::SendStop { .. } => MotorWatchdogState { active: None },
            MotorDispatchStep::Done(_) => watchdog,
        }
    }

    /// The request of this step came to `result` at `now`.
    pub fn sent(
        self,
        result: MotorUartResult,
        watchdog: &mut MotorWatchdogState,
        now: Instant,
    ) -> (r: MotorDispatchStep)
        requires
            now.valid(),
        ensures
            r == self.after(result),
            *final(watchdog) == self.watchdog_after(*old(watchdog), result, now),
    {
        match self {
            MotorDispatchStep::SendCommand { payload, .. } => {
                let command_id = payload.command_id;
                let failed = MotorDispatchOutcome::Failed {
                    command_id,
                    action: payload.action,
                    result,
                };
                match payload.action {
                    MotorCommandAction::Stop => {
                        if result == MotorUartResult::Success {
                            watchdog.disarm();
                            MotorDispatchStep::Done(
                                Some(MotorDispatchOutcome::Stopped { command_id }),
                            )
                        } else {
                            MotorDispatchStep::Done(Some(failed))
                        }
                    },
                    MotorCommandAction::RunForDuration => {
                        let duration_ms = clamp_duration(payload.duration_ms);
                        if result == MotorUartResult::Success {
                            watchdog.arm(command_id, duration_ms, now);
                            MotorDispatchStep::Done(
                                Some(MotorDispatchOutcome::RunStarted { command_id, duration_ms }),
                            )
                        } else if timeout_failsafe_action_for_result(result)
                            == MotorTimeoutFailsafeAction::SendBestEffortStop {
                            MotorDispatchStep::SendStop {
                                request: MotorUartAdapter::stop_motor(&command_id),
                                outcome: failed,
                            }
                        } else {
                            MotorDispatchStep::Done(Some(failed))
                        }
                    },
                }
            },
            MotorDispatchStep::SendStop { outcome, .. } => {
                watchdog.disarm();
                MotorDispatchStep::Done(Some(outcome))
            },
            MotorDispatchStep::Done(outcome) => MotorDispatchStep::Done(outcome),
        }
    }
}

/// What to do next while idling.
#[derive(Clone, Copy, Debug, PartialEq, Eq)]
pub enum MotorIdleStep {
    /// Send this request to the motor, whose time is up.
    StopMotor(MotorRequest),
    /// Sleep, and look at the watchdog again.
    Sleep { ms: u64 },
    /// The time is up.
    Done,
}

/// Idling until `deadline`, with the watchdog looked at all the while.
#[derive(Clone, Copy, Debug, PartialEq, Eq, Structural)]
pub struct MotorIdle {
    pub deadline: Instant,
}

/// Starts to idle for `duration_ms` at `now`.
pub fn idle_with_motor_watchdog(duration_ms: u64, now: Instant) -> (r: MotorIdle)
    requires
        now.valid(),
        duration_ms <= crate::clock::LONGEST_MS,
    ensures
        r == MotorIdle::begun(duration_ms, now),
        r.deadline == now.plus_ms(duration_ms as int),
        r.wf(),
{
    MotorIdle { deadline: now.after_millis(duration_ms) }
}

impl MotorIdle {
    pub open spec fn wf(self) -> bool {
        self.deadline.ticks <= 2 * crate::clock::LATEST_TICKS
    }

    /// Idling for `duration_ms` that starts at `now`.
    pub open spec fn begun(duration_ms: u64, now: Instant) -> MotorIdle {
        MotorIdle { deadline: now.plus_ms(duration_ms as int) }
    }

    /// What a look at `watchdog` at `now` asks for, and the watch that it leaves.
    pub open spec fn looked(self, watchdog: MotorWatchdogState, now: Instant) -> (
        MotorIdleStep,
        MotorWatchdogState,
    ) {
        match watchdog.active {
            Some(active) if watchdog.is_due(now) => (
                MotorIdleStep::StopMotor(stop_request(active.command_id)),
                MotorWatchdogState { active: None },
            ),
            _ => (self.pause(now), watchdog),
        }
    }

    /// What follows at `now` where no motor has to be stopped.
    pub open spec fn pause(self, now: Instant) -> MotorIdleStep {
        if now.ticks >= self.deadline.ticks {
            MotorIdleStep::Done
        } else {
            MotorIdleStep::Sleep {
                ms: crate::arith::min_of(
                    crate::clock::ms_of_ticks(self.deadline.ticks - now.ticks),
                    IDLE_CHUNK_MS as int,
                ) as u64,
            }
        }
    }

    /// The stop that was asked for was sent, whatever became of it.
    pub fn stopped(&self, now: Instant) -> (r: MotorIdleStep)
        requires
            self.wf(),
        ensures
            r == self.pause(now),
    {
        if now.reached(self.deadline) {
            return MotorIdleStep::Done;
        }
        let remaining = now.millis_until(self.deadline);
        if remaining < IDLE_CHUNK_MS {
            MotorIdleStep::Sleep { ms: remaining }
        } else {
            MotorIdleStep::Sleep { ms: IDLE_CHUNK_MS }
        }
    }

    /// Looks at the watchdog, at the start and after each sleep.
    pub fn look(&self, watchdog: &mut MotorWatchdogState, now: Instant) -> (r: MotorIdleStep)
        requires
            self.wf(),
        ensures
            (r, *final(watchdog)) == self.looked(*old(watchdog), now),
            old(watchdog).is_due(now) ==> {
                &&& r == MotorIdleStep::StopMotor(
                    stop_request(old(watchdog).active.unwrap().command_id),
                )
                &&& final(watchdog).active is None
            },
            !old(watchdog).is_due(now) ==> r == self.pause(now) && *final(watchdog) == *old(
                watchdog,
            ),
    {
        match watchdog.enforce_elapsed(now) {
            Some(request) => MotorIdleStep::StopMotor(request),
            None => self.stopped(now),
        }
    }
}

/// Idling lasts at least as long as it should, and the watchdog is looked at every 100 ms at least.
pub proof fn law_idling_lasts_and_keeps_watch(
    idle: MotorIdle,
    start: Instant,
    duration_ms: u64,
    now: Instant,
)
    requires
        start.valid(),
        now.valid(),
        start.ticks <= now.ticks,
        duration_ms <= crate::clock::LONGEST_MS,
        idle.deadline == start.plus_ms(duration_ms as int),
    ensures
        idle.pause(now) is Done ==> crate::clock::ms_of_ticks(now.ticks - start.ticks)
            >= duration_ms,
        idle.pause(now) matches MotorIdleStep::Sleep { ms } ==> ms <= 100,
{
}

/// What the self test of the motor protocol has to show.
pub open spec fn expected_matrix() -> MotorUartSimulationMatrix {
    MotorUartSimulationMatrix {
        valid_ack: MotorUartResult::Success,
        rejected_ack: MotorUartResult::Rejected { status: 7 },
        invalid_ack: MotorUartResult::InvalidResponse,
        timeout_failsafe: MotorTimeoutFailsafeAction::SendBestEffortStop,
        marker_distinct_from_zts3000_request: true,
    }
}

/// Runs made-up acknowledgements through the parser, and asks what a missing one calls for.
pub fn simulate_motor_uart_ack_and_failsafe_matrix() -> (r: MotorUartSimulationMatrix)
    ensures
        r == expected_matrix(),
{
    let marker = MOTOR_UART_FRAME_MARKER;
    let valid_ack = [
        marker[0],
        marker[1],
        marker[2],
        marker[3],
        MOTOR_UART_FRAME_VERSION,
        MOTOR_UART_ACK_STATUS_SUCCESS,
    ];
    let mut rejected_ack = valid_ack;
    rejected_ack[MOTOR_UART_ACK_STATUS_OFFSET] = 7;
    let invalid_ack = [0x00u8, 0x11, 0x22, 0x33, MOTOR_UART_FRAME_VERSION, 0x00];
    let request = ZTS3000_READ_HUM_TEMP;
    proof {
        assert(valid_ack@.subrange(0, 4) =~= marker@);
        assert(rejected_ack@.subrange(0, 4) =~= marker@);
        assert(invalid_ack@.subrange(0, 4)[0] != marker@[0]);
        assert(request@.subrange(0, 4)[0] != marker@[0]);
    }
    MotorUartSimulationMatrix {
        valid_ack: parse_motor_uart_ack(valid_ack.as_slice()),
        rejected_ack: parse_motor_uart_ack(rejected_ack.as_slice()),
        invalid_ack: parse_motor_uart_ack(invalid_ack.as_slice()),
        timeout_failsafe: timeout_failsafe_action_for_result(MotorUartResult::Timeout),
        marker_distinct_from_zts3000_request: !starts_with(request.as_slice(), marker.as_slice()),
    }
}

/// Whether the self test of the motor protocol shows what it has to.
pub fn motor_uart_simulation_matrix_is_expected(matrix: MotorUartSimulationMatrix) -> (r: bool)
    ensures
        r == (matrix == expected_matrix()),
{
    matrix.valid_ack == MotorUartResult::Success && matrix.rejected_ack
        == MotorUartResult::Rejected { status: 7 } && matrix.invalid_ack
        == MotorUartResult::InvalidResponse && matrix.timeout_failsafe
        == MotorTimeoutFailsafeAction::SendBestEffortStop
        && matrix.marker_distinct_from_zts3000_request
}

/// The motor is never asked to run longer than the limit, whatever command waits.
pub proof fn law_run_is_bounded(payload: MotorCommandPayload)
    ensures
        request_for(payload).duration_ms <= MOTOR_COMMAND_MAX_DURATION_MS,
{
}

/// A command that has outlived its life is never sent to the motor.
pub proof fn law_expired_command_is_never_sent(
    state: MotorCommandState,
    pending: crate::motor_command::PendingMotorCommandRequest,
    now_ms: u32,
)
    requires
        state.pending_request == Some(pending),
        has_expired(pending, now_ms),
    ensures
        first_step(state, now_ms) == MotorDispatchStep::Done(
            Some(
                MotorDispatchOutcome::ExpiredBeforeDispatch {
                    command_id: pending.payload.command_id,
                },
            ),
        ),
{
}

/// A run that the motor acknowledged is watched from then on, and the stop goes out no earlier than
/// the run time is over and at the first look after that.
pub proof fn law_started_run_is_stopped(
    request: MotorRequest,
    payload: MotorCommandPayload,
    watchdog: MotorWatchdogState,
    start: Instant,
    now: Instant,
)
    requires
        payload.action is RunForDuration,
        start.valid(),
        now.valid(),
        start.ticks <= now.ticks,
    ensures
        ({
            let watched = (MotorDispatchStep::SendCommand { request, payload }).watchdog_after(
                watchdog,
                MotorUartResult::Success,
                start,
            );
            let ticks = crate::clock::ticks_of_ms(clamped_duration(payload.duration_ms) as int);
            &&& watched.active matches Some(active)
            &&& active.command_id == payload.command_id
            &&& watched.is_due(now) <==> now.ticks - start.ticks >= ticks
            &&& watched.is_due(now) ==> crate::clock::ms_of_ticks(now.ticks - start.ticks)
                >= clamped_duration(payload.duration_ms)
        }),
{
}

/// A run of which no acknowledgement came is answered by a stop for the same command. Whatever
/// becomes of that stop, nothing is watched any more and the run counts as timed out.
pub proof fn law_unacknowledged_run_is_stopped(
    request: MotorRequest,
    payload: MotorCommandPayload,
    watchdog: MotorWatchdogState,
    result: MotorUartResult,
    start: Instant,
    now: Instant,
)
    requires
        payload.action is RunForDuration,
    ensures
        ({
            let first = MotorDispatchStep::SendCommand { request, payload };
            let stop = first.after(MotorUartResult::Timeout);
            let watched = first.watchdog_after(watchdog, MotorUartResult::Timeout, start);
            &&& stop matches MotorDispatchStep::SendStop { request: sent, .. }
            &&& sent == stop_request(payload.command_id)
            &&& stop.watchdog_after(watched, result, now).active is None
            &&& stop.after(result) == MotorDispatchStep::Done(
                Some(
                    MotorDispatchOutcome::Failed {
                        command_id: payload.command_id,
                        action: payload.action,
                        result: MotorUartResult::Timeout,
                    },
                ),
            )
        }),
{
}

/// The frame tells the request: two requests with the same frame are the same.
pub proof fn law_frame_tells_the_request(a: MotorRequest, b: MotorRequest)
    requires
        encoded_frame(a.action, a.command_id@, a.duration_ms) == encoded_frame(
            b.action,
            b.command_id@,
            b.duration_ms,
        ),
    ensures
        a.action == b.action,
        a.command_id@ == b.command_id@,
        a.duration_ms == b.duration_ms,
{
    let f = encoded_frame(a.action, a.command_id@, a.duration_ms);
    let g = encoded_frame(b.action, b.command_id@, b.duration_ms);
    crate::bytes::lemma_le_bytes_four(a.duration_ms as int);
    crate::bytes::lemma_le_bytes_four(b.duration_ms as int);
    assert(f[5] == a.action && g[5] == b.action);
    assert(f.subrange(6, 22) =~= a.command_id@);
    assert(g.subrange(6, 22) =~= b.command_id@);
    let x = crate::bytes::le_bytes(a.duration_ms as int, 4);
    let y = crate::bytes::le_bytes(b.duration_ms as int, 4);
    assert(f[22] == x[0] && f[23] == x[1] && f[24] == x[2] && f[25] == x[3]);
    assert(g[22] == y[0] && g[23] == y[1] && g[24] == y[2] && g[25] == y[3]);
}

/// The motor and the soil sensor are never taken for each other on the port they share: no frame
/// to the motor starts like a request to the soil sensor, and no reply passes both for an
/// acknowledgement of the motor and for a response of the sensor.
pub proof fn law_motor_and_soil_traffic_are_distinct(request: MotorRequest, reply: Seq<u8>)
    ensures
        encoded_frame(request.action, request.command_id@, request.duration_ms).subrange(0, 4)
            != ZTS3000_READ_HUM_TEMP@.subrange(0, 4),
        crate::zts3000::parsed_response(reply) is Ok ==> parsed_ack(reply) is InvalidResponse,
{
    let f = encoded_frame(request.action, request.command_id@, request.duration_ms);
    assert(f.subrange(0, 4)[0] == MOTOR_UART_FRAME_MARKER@[0]);
    assert(ZTS3000_READ_HUM_TEMP@.subrange(0, 4)[0] == ZTS3000_READ_HUM_TEMP@[0]);
    if parsed_ack(reply) !is InvalidResponse {
        assert(reply.subrange(0, 4)[0] == reply[0]);
    }
}

/// A dispatch ends as a started run or as a stop only where the motor acknowledged it. For every
/// other result it ends as failed, with the identifier of the command, its action, and that very
/// result. A run is started for the time that the command asks for, five seconds at most.
pub proof fn law_dispatch_reports_the_result_of_the_motor(
    request: MotorRequest,
    payload: MotorCommandPayload,
    result: MotorUartResult,
    stop_result: MotorUartResult,
)
    ensures
        ({
            let next = (MotorDispatchStep::SendCommand { request, payload }).after(result);
            let end = next.after(stop_result);
            let runs = payload.action is RunForDuration;
            let failed = MotorDispatchOutcome::Failed {
                command_id: payload.command_id,
                action: payload.action,
                result,
            };
            &&& result is Success && !runs ==> next == MotorDispatchStep::Done(
                Some(MotorDispatchOutcome::Stopped { command_id: payload.command_id }),
            )
            &&& result is Success && runs ==> (next matches MotorDispatchStep::Done(
                Some(MotorDispatchOutcome::RunStarted { command_id, duration_ms }),
            ) && command_id == payload.command_id && duration_ms <= 5_000 && duration_ms
                <= payload.duration_ms && (duration_ms == 5_000 || duration_ms
                == payload.duration_ms))
            &&& result !is Success && !(result is Timeout && runs) ==> next
                == MotorDispatchStep::Done(Some(failed))
            &&& result is Timeout && runs ==> (next matches MotorDispatchStep::SendStop {
                request: stop,
                outcome,
            } && outcome == failed && stop.action == 0 && stop.command_id == payload.command_id
                && stop.duration_ms == 0)
            &&& result !is Success ==> end == MotorDispatchStep::Done(Some(failed))
            &&& next is Done ==> end == next
        }),
{
}

/// The watch changes only where the motor acknowledged a request, or was asked to stop after a run
/// that it did not acknowledge: a stop ends it, and a run starts it anew, to end once the time that
/// the run was started for has passed.
pub proof fn law_watch_follows_what_the_motor_acknowledged(
    step: MotorDispatchStep,
    watchdog: MotorWatchdogState,
    result: MotorUartResult,
    now: Instant,
)
    ensures
        ({
            let watched = step.watchdog_after(watchdog, result, now);
            match step {
                MotorDispatchStep::SendCommand { payload, .. } => {
                    &&& result !is Success ==> watched == watchdog
                    &&& result is Success && payload.action is Stop ==> watched.active is None
                    &&& result is Success && payload.action is RunForDuration ==> {
                        &&& watched.active matches Some(active)
                        &&& active.command_id == payload.command_id
                        &&& payload.duration_ms <= 5_000 ==> active.deadline == now.plus_ms(
                            payload.duration_ms as int,
                        )
                        &&& payload.duration_ms >= 5_000 ==> active.deadline == now.plus_ms(5_000)
                    }
                },
                MotorDispatchStep::SendStop { .. } => watched.active is None,
                MotorDispatchStep::Done(_) => watched == watchdog,
            }
        }),
{
}

/// A stop asks the motor for action 0 and no time. A run asks for action 1 and the time of the
/// command, five seconds at most. Both carry the identifier of the command.
pub proof fn law_request_carries_out_the_command(payload: MotorCommandPayload)
    ensures
        ({
            let request = request_for(payload);
            &&& request.command_id == payload.command_id
            &&& payload.action is Stop ==> request.action == 0 && request.duration_ms == 0
            &&& payload.action is RunForDuration ==> {
                &&& request.action == 1
                &&& payload.duration_ms <= 5_000 ==> request.duration_ms == payload.duration_ms
                &&& payload.duration_ms >= 5_000 ==> request.duration_ms == 5_000
            }
            &&& stop_request(payload.command_id) == MotorRequest {
                action: 0,
                command_id: payload.command_id,
                duration_ms: 0,
            }
        }),
{
}

/// A command that waits is sent to the motor while it lives: `waited` milliseconds after it was
/// accepted, on a counter that may have started again at zero since, it goes out if and only if its
/// life is longer. Without a command nothing is sent.
pub proof fn law_waiting_command_is_sent_while_it_lives(
    state: MotorCommandState,
    now_ms: u32,
    waited: int,
)
    requires
        0 <= waited < 0x1_0000_0000,
        state.pending_request matches Some(pending) ==> now_ms == (pending.accepted_at_ms + waited)
            % 0x1_0000_0000,
    ensures
        match state.pending_request {
            None => first_step(state, now_ms) == MotorDispatchStep::Done(None),
            Some(pending) => {
                let payload = pending.payload;
                &&& waited < payload.expires_after_ms ==> first_step(state, now_ms)
                    == MotorDispatchStep::SendCommand { request: request_for(payload), payload }
                &&& waited >= payload.expires_after_ms ==> first_step(state, now_ms)
                    == MotorDispatchStep::Done(
                    Some(
                        MotorDispatchOutcome::ExpiredBeforeDispatch {
                            command_id: payload.command_id,
                        },
                    ),
                )
            },
        },
{
}

/// A frame to the motor is 26 bytes: "HHMC", version 1, the action, the identifier, and the time in
/// milliseconds with the least significant byte first.
pub proof fn law_frame_has_its_layout(action: u8, command_id: Seq<u8>, duration_ms: u32)
    requires
        command_id.len() == 16,
    ensures
        ({
            let frame = encoded_frame(action, command_id, duration_ms);
            &&& frame.len() == 26
            &&& frame.subrange(0, 6) == seq![0x48u8, 0x48, 0x4d, 0x43, 1, action]
            &&& frame.subrange(6, 22) == command_id
            &&& frame[22] + 0x100 * frame[23] + 0x1_0000 * frame[24] + 0x100_0000 * frame[25]
                == duration_ms
        }),
{
    let frame = encoded_frame(action, command_id, duration_ms);
    let tail = crate::bytes::le_bytes(duration_ms as int, 4);
    crate::bytes::law_bytes_are_digits(duration_ms as int);
    assert(frame.subrange(0, 6) =~= seq![0x48u8, 0x48, 0x4d, 0x43, 1, action]);
    assert(frame.subrange(6, 22) =~= command_id);
    assert(frame[22] == tail[0] && frame[23] == tail[1] && frame[24] == tail[2] && frame[25]
        == tail[3]);
}

/// An acknowledgement is "HHMC", version 1 and a status, whatever follows: status 0 is success, any
/// other a rejection with that status. What is shorter or starts otherwise is no acknowledgement.
pub proof fn law_acknowledgement_tells_the_status(status: u8, rest: Seq<u8>, other: Seq<u8>)
    ensures
        ({
            let ack = seq![0x48u8, 0x48, 0x4d, 0x43, 1, status] + rest;
            &&& status == 0 ==> parsed_ack(ack) == MotorUartResult::Success
            &&& status != 0 ==> parsed_ack(ack) == (MotorUartResult::Rejected { status })
        }),
        other.len() < 6 ==> parsed_ack(other) == MotorUartResult::InvalidResponse,
        other.len() >= 6 && other.subrange(0, 5) != seq![0x48u8, 0x48, 0x4d, 0x43, 1] ==> parsed_ack(
            other,
        ) == MotorUartResult::InvalidResponse,
{
    let ack = seq![0x48u8, 0x48, 0x4d, 0x43, 1, status] + rest;
    assert(ack.subrange(0, 4) =~= MOTOR_UART_FRAME_MARKER@);
    if other.len() >= 6 && other.subrange(0, 4) == MOTOR_UART_FRAME_MARKER@ && other[4] == 1 {
        assert forall|i: int| 0 <= i < 4 implies #[trigger] other[i] == MOTOR_UART_FRAME_MARKER@[i] by {
            assert(other.subrange(0, 4)[i] == other[i]);
        }
        assert(other.subrange(0, 5) =~= seq![0x48u8, 0x48, 0x4d, 0x43, 1]);
    }
}

/// Only a missing acknowledgement calls for a stop. The log tells success, a fault of the line and a
/// refusal apart.
pub proof fn law_result_is_judged_by_its_kind(result: MotorUartResult)
    ensures
        failsafe_for(result) is SendBestEffortStop <==> result is Timeout,
        reason_code(result) == "NONE"@ <==> result is Success,
        reason_code(result) == "UART_TIMEOUT"@ <==> result is Timeout || result is UartError,
        reason_code(result) == "UART_REJECTED"@ <==> result is Rejected
            || result is InvalidResponse,
{
    reveal_strlit("NONE");
    reveal_strlit("UART_TIMEOUT");
    reveal_strlit("UART_REJECTED");
    assert("NONE"@.len() == 4 && "UART_TIMEOUT"@.len() == 12 && "UART_REJECTED"@.len() == 13);
}

/// Idling is over once its time has come, and not before. Until then it sleeps for the whole
/// milliseconds that are left, 100 at most.
pub proof fn law_idling_ends_at_its_deadline(idle: MotorIdle, now: Instant)
    requires
        idle.wf(),
    ensures
        now.ticks >= idle.deadline.ticks <==> idle.pause(now) is Done,
        now.ticks < idle.deadline.ticks ==> (idle.pause(now) matches MotorIdleStep::Sleep { ms }
            && ms <= 100 && ms * 32_768 <= (idle.deadline.ticks - now.ticks) * 1000 && (ms == 100
            || (ms + 1) * 32_768 > (idle.deadline.ticks - now.ticks) * 1000)),
{
}

/// A watched run is due from its deadline on, and not before.
pub proof fn law_run_is_due_at_its_deadline(watchdog: MotorWatchdogState, now: Instant)
    ensures
        watchdog.active is None ==> !watchdog.is_due(now),
        watchdog.active matches Some(active) ==> (watchdog.is_due(now) <==> now.ticks
            >= active.deadline.ticks),
{
}

/// A frame is written, leaves the port, and the motor has 150 ms to acknowledge it. A fault of the port
/// ends the exchange as such, silence as a timeout, and an acknowledgement as what it says.
pub proof fn law_exchange_runs_in_order(fault: UartError, ack: Vec<u8>)
    ensures
        MotorUartStep::after_writing(Ok(())) is Flush,
        MotorUartStep::after_writing(Err(fault)) == MotorUartStep::Finished(
            MotorUartResult::UartError,
        ),
        MotorUartStep::after_flushing(Ok(())) == (MotorUartStep::Receive { timeout_ms: 150 }),
        MotorUartStep::after_flushing(Err(fault)) == MotorUartStep::Finished(
            MotorUartResult::UartError,
        ),
        MotorUartStep::outcome(UartRead::Failed(fault)) == MotorUartResult::UartError,
        MotorUartStep::outcome(UartRead::TimedOut) == MotorUartResult::Timeout,
        MotorUartStep::outcome(UartRead::Received(ack)) == parsed_ack(ack@),
{
}

/// While idling, a motor whose time is up is stopped under the identifier of its command and not
/// watched any more. Otherwise the watch stays as it is and the idling goes on.
pub proof fn law_idling_stops_a_due_motor(
    idle: MotorIdle,
    watchdog: MotorWatchdogState,
    now: Instant,
)
    ensures
        ({
            let (step, left) = idle.looked(watchdog, now);
            match watchdog.active {
                Some(active) if now.ticks >= active.deadline.ticks => {
                    &&& step matches MotorIdleStep::StopMotor(request)
                    &&& request.action == 0
                    &&& request.duration_ms == 0
                    &&& request.command_id == active.command_id
                    &&& left.active is None
                },
                _ => step == idle.pause(now) && left == watchdog,
            }
        }),
{
}

/// Idling for some time is over at the first look after that time, and at none before it.
pub proof fn law_idling_takes_the_time_asked_for(duration_ms: u64, start: Instant, now: Instant)
    requires
        start.valid(),
        now.valid(),
        start.ticks <= now.ticks,
        duration_ms <= crate::clock::LONGEST_MS,
    ensures
        MotorIdle::begun(duration_ms, start).pause(now) is Done <==> (now.ticks - start.ticks)
            * 1000 >= duration_ms * 32_768,
{
}

/// The frame that a command is sent as carries the command: its action, its identifier, and for a run
/// the time that it asks for, five seconds at most.
pub proof fn law_command_is_sent_in_its_frame(payload: MotorCommandPayload)
    ensures
        ({
            let frame = request_for(payload).frame();
            let time = frame[22] + 0x100 * frame[23] + 0x1_0000 * frame[24] + 0x100_0000
                * frame[25];
            &&& frame.len() == 26
            &&& frame.subrange(0, 5) == seq![0x48u8, 0x48, 0x4d, 0x43, 1]
            &&& frame.subrange(6, 22) == payload.command_id@
            &&& payload.action is Stop ==> frame[5] == 0 && time == 0
            &&& payload.action is RunForDuration ==> {
                &&& frame[5] == 1
                &&& payload.duration_ms <= 5_000 ==> time == payload.duration_ms
                &&& payload.duration_ms >= 5_000 ==> time == 5_000
            }
        }),
{
    let request = request_for(payload);
    let frame = request.frame();
    law_frame_has_its_layout(request.action, request.command_id@, request.duration_ms);
    let head = frame.subrange(0, 6);
    assert(head[5] == frame[5]);
    assert(frame.subrange(0, 5) =~= head.subrange(0, 5));
    assert(head.subrange(0, 5) =~= seq![0x48u8, 0x48, 0x4d, 0x43, 1]);
}

} // verus!
