//! The advertising session: the probe is discoverable until a central connects or the time is up,
//! takes motor commands from the central, and drives the motor all the while.
//!
//! A session runs in rounds. Each round dispatches the motor command that waits, stops a motor that
//! has run its time, ends the session or a stale connection whose time is up, and handles one
//! packet. The program performs what [`SessionStep`] asks for and reports the outcome as a
//! [`SessionEvent`].
use vstd::prelude::*;

use crate::clock::Instant;
use crate::config::{
    BLE_ADV_TIMEOUT_MS, BLE_CONNECTED_TIMEOUT_MS, BLE_READ_TIMEOUT_MS, BLE_TERMINATE_WAIT_MS,
};
use crate::gatt::GattHandles;
use crate::hci::{
    wait_for_gap_set_nondiscoverable_complete, CommandWait, HciEvent, HciRead, WriteReply,
    WriteRequest,
};
use crate::motor_command::{MotorCommandState, MotorCommandWriteOutcome};
use crate::motor_uart::{
    dispatch_pending_motor_command, MotorDispatchOutcome, MotorDispatchStep, MotorRequest,
    MotorUartResult, MotorWatchdogState,
};

verus! {

/// A connection with a central, and when it counts as stale.
#[derive(Clone, Copy, Debug, PartialEq, Eq, Structural)]
pub struct Connection {
    pub conn_handle: u16,
    pub deadline: Instant,
}

/// What the session asks for next.
#[derive(Debug, PartialEq, Eq)]
pub enum SessionStep {
    /// Send the request of the dispatch to the motor.
    Dispatch(MotorDispatchStep),
    /// Send this request to the motor, whose time is up.
    StopMotor(MotorRequest),
    /// Give the command to stop being discoverable.
    StopDiscoverable,
    /// Read a packet, within the time that a command may take.
    AwaitNondiscoverable,
    /// Terminate the connection.
    Terminate { conn_handle: u16 },
    /// Read a packet.
    Read { timeout_ms: u64 },
    /// Answer a request to write.
    Respond(WriteReply),
    Ended,
}

/// What came of a step.
#[derive(Debug, PartialEq, Eq)]
pub enum SessionEvent {
    MotorReply(MotorUartResult),
    /// The command to stop being discoverable was given, or could not be.
    StopSent,
    /// Whether the command to terminate could be given.
    Terminated { ok: bool },
    Read(HciRead),
    /// Whether the answer could be given.
    Responded { ok: bool },
}

/// An advertising session.
#[derive(Debug, PartialEq, Eq)]
pub struct AdvertisingSession {
    pub handles: GattHandles,
    pub motor: MotorCommandState,
    pub watchdog: MotorWatchdogState,
    pub adv_deadline: Instant,
    pub connection: Option<Connection>,
    pub isr_delay_count: u32,
    /// When the round began.
    pub round_start: Instant,
    /// What became of the motor command that the round dispatched, if any.
    pub dispatch_outcome: Option<MotorDispatchOutcome>,
    /// What became of the motor command that was written in the round, if any.
    pub write_outcome: Option<MotorCommandWriteOutcome>,
    pub step: SessionStep,
}

impl AdvertisingSession {
    /// A dispatch is only under way while it has something to send.
    pub open spec fn wf(self) -> bool {
        self.step matches SessionStep::Dispatch(dispatch) ==> dispatch !is Done
    }

    /// A session as it starts, before its first round.
    pub open spec fn opened(
        handles: GattHandles,
        motor: MotorCommandState,
        watchdog: MotorWatchdogState,
        now: Instant,
    ) -> AdvertisingSession {
        AdvertisingSession {
            handles,
            motor,
            watchdog,
            adv_deadline: now.plus_ms(BLE_ADV_TIMEOUT_MS as int),
            connection: None,
            isr_delay_count: 0,
            round_start: now,
            dispatch_outcome: None,
            write_outcome: None,
            step: SessionStep::Ended,
        }
    }

    /// The deadlines are looked at, as of the beginning of the round.
    pub open spec fn deadlines_checked(self) -> AdvertisingSession {
        let step = match self.connection {
            None => if self.round_start.ticks >= self.adv_deadline.ticks {
                SessionStep::StopDiscoverable
            } else {
                SessionStep::Read { timeout_ms: BLE_READ_TIMEOUT_MS }
            },
            Some(connection) => if self.round_start.ticks >= connection.deadline.ticks {
                SessionStep::Terminate { conn_handle: connection.conn_handle }
            } else {
                SessionStep::Read { timeout_ms: BLE_READ_TIMEOUT_MS }
            },
        };
        AdvertisingSession { step, ..self }
    }

    /// The watchdog is looked at, and then the deadlines.
    pub open spec fn watchdog_checked(self, now: Instant) -> AdvertisingSession {
        if self.watchdog.is_due(now) {
            AdvertisingSession {
                step: SessionStep::StopMotor(
                    crate::motor_uart::stop_request(self.watchdog.active.unwrap().command_id),
                ),
                watchdog: MotorWatchdogState { active: None },
                ..self
            }
        } else {
            self.deadlines_checked()
        }
    }

    /// A dispatch of a motor command has come to `dispatch`.
    pub open spec fn dispatched(self, dispatch: MotorDispatchStep, now: Instant) -> AdvertisingSession {
        match dispatch {
            MotorDispatchStep::Done(outcome) => (AdvertisingSession {
                dispatch_outcome: outcome,
                ..self
            }).watchdog_checked(now),
            _ => AdvertisingSession { step: SessionStep::Dispatch(dispatch), ..self },
        }
    }

    /// A round begins: the command that waits is taken.
    pub open spec fn round_begun(self, now: Instant) -> AdvertisingSession {
        let taken = AdvertisingSession {
            round_start: now,
            motor: MotorCommandState { pending_request: None, ..self.motor },
            dispatch_outcome: None,
            write_outcome: None,
            ..self
        };
        taken.dispatched(
            crate::motor_uart::first_step(self.motor, now.counter_ms() as u32),
            now,
        )
    }

    /// The identifier of the command that the motor runs.
    pub open spec fn active_id(self) -> Option<Seq<u8>> {
        match self.watchdog.active {
            Some(active) => Some(active.command_id@),
            None => None,
        }
    }

    /// `after` is this session once `request` was decided on at `now`. A write to the motor
    /// command is permitted where it is accepted, any other write is not.
    pub open spec fn write_decided(
        self,
        request: WriteRequest,
        now: Instant,
        after: AdvertisingSession,
    ) -> bool {
        let counter = now.counter_ms() as u32;
        let is_motor = request.attribute_handle == self.handles.motor_command_value();
        let outcome = crate::motor_command::write_outcome(
            self.motor@,
            request.value@,
            counter,
            self.active_id(),
        );
        &&& after == AdvertisingSession {
            motor: after.motor,
            write_outcome: after.write_outcome,
            step: SessionStep::Respond(
                WriteReply { request, permitted: is_motor && outcome is Accepted },
            ),
            ..self
        }
        &&& if is_motor {
            &&& after.write_outcome matches Some(became)
            &&& became@ == outcome
            &&& crate::motor_command::write_leads_to(
                self.motor@,
                request.value@,
                counter,
                self.active_id(),
                after.motor@,
                outcome,
            )
        } else {
            after.write_outcome is None && after.motor == self.motor
        }
    }

    /// `after` is this session once `read` came at `now`.
    pub open spec fn packet_handled(
        self,
        read: HciRead,
        now: Instant,
        after: AdvertisingSession,
    ) -> bool {
        match read {
            HciRead::Event(HciEvent::IsrDelay) => {
                let counted = AdvertisingSession {
                    isr_delay_count: ((self.isr_delay_count + 1) % 0x1_0000_0000) as u32,
                    ..self
                };
                after == counted.round_begun(now)
            },
            HciRead::Event(HciEvent::LeConnectionComplete { success: true, conn_handle }) => {
                let connected = AdvertisingSession {
                    connection: Some(
                        Connection {
                            conn_handle,
                            deadline: now.plus_ms(BLE_CONNECTED_TIMEOUT_MS as int),
                        },
                    ),
                    ..self
                };
                after == connected.round_begun(now)
            },
            HciRead::Event(HciEvent::DisconnectionComplete) => after == AdvertisingSession {
                step: SessionStep::Ended,
                ..self
            },
            HciRead::Event(HciEvent::AttWritePermitRequest(request)) => self.write_decided(
                request,
                now,
                after,
            ),
            _ => after == self.round_begun(now),
        }
    }

    /// `after` is this session once `event` came at `now`. An event that does not answer what the
    /// session asked for changes nothing.
    pub open spec fn leads_to(
        self,
        event: SessionEvent,
        now: Instant,
        after: AdvertisingSession,
    ) -> bool {
        match (self.step, event) {
            (SessionStep::Dispatch(dispatch), SessionEvent::MotorReply(result)) => {
                let watched = AdvertisingSession {
                    watchdog: dispatch.watchdog_after(self.watchdog, result, now),
                    ..self
                };
                after == watched.dispatched(dispatch.after(result), now)
            },
            (SessionStep::StopMotor(_), SessionEvent::MotorReply(_)) => after
                == self.deadlines_checked(),
            (SessionStep::StopDiscoverable, SessionEvent::StopSent) => after
                == AdvertisingSession { step: SessionStep::AwaitNondiscoverable, ..self },
            (SessionStep::AwaitNondiscoverable, SessionEvent::Read(read)) => {
                match crate::hci::gap_set_nondiscoverable_wait(read) {
                    CommandWait::KeepReading => after == self,
                    CommandWait::Finished(_) => after == AdvertisingSession {
                        step: SessionStep::Ended,
                        ..self
                    },
                }
            },
            (SessionStep::Terminate { conn_handle }, SessionEvent::Terminated { ok }) => if ok {
                after == AdvertisingSession {
                    connection: Some(
                        Connection {
                            conn_handle,
                            deadline: now.plus_ms(BLE_TERMINATE_WAIT_MS as int),
                        },
                    ),
                    step: SessionStep::Read { timeout_ms: BLE_READ_TIMEOUT_MS },
                    ..self
                }
            } else {
                after == AdvertisingSession { step: SessionStep::Ended, ..self }
            },
            (SessionStep::Read { .. }, SessionEvent::Read(read)) => self.packet_handled(
                read,
                now,
                after,
            ),
            (SessionStep::Respond(_), SessionEvent::Responded { ok }) => if ok {
                after == self.round_begun(now)
            } else {
                after == AdvertisingSession { step: SessionStep::Ended, ..self }
            },
            _ => after == self,
        }
    }
}

/// Starts an advertising session at `now`.
pub fn run_advertising_session(
    handles: &GattHandles,
    motor: MotorCommandState,
    watchdog: MotorWatchdogState,
    now: Instant,
) -> (r: AdvertisingSession)
    requires
        now.valid(),
    ensures
        r.wf(),
        r == AdvertisingSession::opened(*handles, motor, watchdog, now).round_begun(now),
        r == (AdvertisingSession {
            handles: *handles,
            motor,
            watchdog,
            adv_deadline: now.plus_ms(BLE_ADV_TIMEOUT_MS as int),
            connection: None,
            isr_delay_count: 0,
            round_start: now,
            dispatch_outcome: None,
            write_outcome: None,
            step: SessionStep::Ended,
        }).round_begun(now),
{
    let mut session = AdvertisingSession {
        handles: *handles,
        motor,
        watchdog,
        adv_deadline: now.after_millis(BLE_ADV_TIMEOUT_MS),
        connection: None,
        isr_delay_count: 0,
        round_start: now,
        dispatch_outcome: None,
        write_outcome: None,
        step: SessionStep::Ended,
    };
    session.begin_round(now);
    session
}

impl AdvertisingSession {
    fn check_deadlines(&mut self)
        ensures
            *final(self) == old(self).deadlines_checked(),
    {
        self.step = match self.connection {
            None => if self.round_start.reached(self.adv_deadline) {
                SessionStep::StopDiscoverable
            } else {
                SessionStep::Read { timeout_ms: BLE_READ_TIMEOUT_MS }
            },
            Some(connection) => if self.round_start.reached(connection.deadline) {
                SessionStep::Terminate { conn_handle: connection.conn_handle }
            } else {
                SessionStep::Read { timeout_ms: BLE_READ_TIMEOUT_MS }
            },
        };
    }

    fn check_watchdog(&mut self, now: Instant)
        ensures
            *final(self) == old(self).watchdog_checked(now),
    {
        match self.watchdog.enforce_elapsed(now) {
            Some(request) => {
                self.step = SessionStep::StopMotor(request);
            },
            None => {
                self.check_deadlines();
            },
        }
    }

    fn continue_dispatch(&mut self, dispatch: MotorDispatchStep, now: Instant)
        ensures
            *final(self) == old(self).dispatched(dispatch, now),
    {
        match dispatch {
            MotorDispatchStep::Done(outcome) => {
                self.dispatch_outcome = outcome;
                self.check_watchdog(now);
            },
            _ => {
                self.step = SessionStep::Dispatch(dispatch);
            },
        }
    }

    fn begin_round(&mut self, now: Instant)
        requires
            now.valid(),
        ensures
            *final(self) == old(self).round_begun(now),
    {
        self.round_start = now;
        self.dispatch_outcome = None;
        self.write_outcome = None;
        let dispatch = dispatch_pending_motor_command(&mut self.motor, now.now_ms_u32());
        self.continue_dispatch(dispatch, now);
    }

    /// Decides on a request to write.
    fn decide_write(&mut self, request: WriteRequest, now: Instant)
        requires
            now.valid(),
        ensures
            old(self).write_decided(request, now, *final(self)),
    {
        let mut permitted = false;
        self.write_outcome = None;
        if request.attribute_handle == self.handles.motor_command_value_handle() {
            let outcome = self.motor.handle_write_payload(
                request.value.as_slice(),
                now.now_ms_u32(),
                self.watchdog.active_command_id(),
            );
            permitted = match outcome {
                MotorCommandWriteOutcome::Accepted(_) => true,
                _ => false,
            };
            self.write_outcome = Some(outcome);
        }
        self.step = SessionStep::Respond(WriteReply { request, permitted });
    }

    fn handle_packet(&mut self, read: HciRead, now: Instant)
        requires
            now.valid(),
        ensures
            old(self).packet_handled(read, now, *final(self)),
    {
        match read {
            HciRead::Event(HciEvent::IsrDelay) => {
                self.isr_delay_count = self.isr_delay_count.wrapping_add(1);
                self.begin_round(now);
            },
            HciRead::Event(HciEvent::LeConnectionComplete { success: true, conn_handle }) => {
                let deadline = now.after_millis(BLE_CONNECTED_TIMEOUT_MS);
                self.connection = Some(Connection { conn_handle, deadline });
                self.begin_round(now);
            },
            HciRead::Event(HciEvent::DisconnectionComplete) => {
                self.step = SessionStep::Ended;
            },
            HciRead::Event(HciEvent::AttWritePermitRequest(request)) => {
                self.decide_write(request, now);
            },
            _ => {
                self.begin_round(now);
            },
        }
    }

    /// What the session asked for came to `event` at `now`.
    pub fn next(&mut self, event: SessionEvent, now: Instant)
        requires
            now.valid(),
        ensures
            old(self).wf() ==> final(self).wf(),
            old(self).leads_to(event, now, *final(self)),
    {
        match (&self.step, event) {
            (SessionStep::Dispatch(dispatch), SessionEvent::MotorReply(result)) => {
                let dispatch = dispatch.sent(result, &mut self.watchdog, now);
                self.continue_dispatch(dispatch, now);
            },
            (SessionStep::StopMotor(_), SessionEvent::MotorReply(_)) => {
                self.check_deadlines();
            },
            (SessionStep::StopDiscoverable, SessionEvent::StopSent) => {
                self.step = SessionStep::AwaitNondiscoverable;
            },
            (SessionStep::AwaitNondiscoverable, SessionEvent::Read(read)) => {
                match wait_for_gap_set_nondiscoverable_complete(&read) {
                    CommandWait::KeepReading => {},
                    CommandWait::Finished(_) => {
                        self.step = SessionStep::Ended;
                    },
                }
            },
            (SessionStep::Terminate { conn_handle }, SessionEvent::Terminated { ok }) => {
                if ok {
                    let deadline = now.after_millis(BLE_TERMINATE_WAIT_MS);
                    self.connection = Some(Connection { conn_handle: *conn_handle, deadline });
                    self.step = SessionStep::Read { timeout_ms: BLE_READ_TIMEOUT_MS };
                } else {
                    self.step = SessionStep::Ended;
                }
            },
            (SessionStep::Read { .. }, SessionEvent::Read(read)) => {
                self.handle_packet(read, now);
            },
            (SessionStep::Respond(_), SessionEvent::Responded { ok }) => {
                if ok {
                    self.begin_round(now);
                } else {
                    self.step = SessionStep::Ended;
                }
            },
            _ => {},
        }
    }
}

impl AdvertisingSession {
    /// The session only waits for a packet in a round that began before its time was up: that of
    /// the advertisement while no central is connected, that of the connection otherwise.
    pub open spec fn is_in_time(self) -> bool {
        self.step is Read ==> match self.connection {
            None => self.round_start.ticks < self.adv_deadline.ticks,
            Some(connection) => self.round_start.ticks < connection.deadline.ticks,
        }
    }
}

/// A session is in time when it starts, whatever motor command waits.
pub proof fn law_session_starts_in_time(before: AdvertisingSession, now: Instant)
    ensures
        before.round_begun(now).is_in_time(),
{
}

/// A session stays in time: once its time is up it does not wait for another packet, but stops
/// being discoverable or terminates the connection.
pub proof fn law_session_stays_in_time(
    before: AdvertisingSession,
    event: SessionEvent,
    now: Instant,
    after: AdvertisingSession,
)
    requires
        before.is_in_time(),
        before.leads_to(event, now, after),
        now.valid(),
        before.round_start.ticks <= now.ticks,
    ensures
        after.is_in_time(),
        after.round_start.ticks <= now.ticks,
{
}

/// A session that has ended stays as it is.
pub proof fn law_ended_session_stays_ended(
    before: AdvertisingSession,
    event: SessionEvent,
    now: Instant,
    after: AdvertisingSession,
)
    requires
        before.step is Ended,
        before.leads_to(event, now, after),
    ensures
        after == before,
{
}

/// A motor that has run its time is stopped before the session goes on to a packet or a deadline.
pub proof fn law_motor_is_stopped_before_anything_else(
    before: AdvertisingSession,
    event: SessionEvent,
    now: Instant,
    after: AdvertisingSession,
)
    requires
        before.leads_to(event, now, after),
        before.step is Dispatch || before.step is Read || before.step is Respond,
        after != before,
        after.step is Read || after.step is Terminate || after.step is StopDiscoverable,
    ensures
        !after.watchdog.is_due(now),
{
}

/// A write that is permitted is a valid motor command, and waits to be dispatched from then on. One
/// that is not permitted leaves the waiting command as it was.
pub proof fn law_permitted_write_waits_for_dispatch(
    before: AdvertisingSession,
    request: WriteRequest,
    now: Instant,
    after: AdvertisingSession,
)
    requires
        before.step is Read,
        before.leads_to(
            SessionEvent::Read(HciRead::Event(HciEvent::AttWritePermitRequest(request))),
            now,
            after,
        ),
    ensures
        after.step matches SessionStep::Respond(reply) && reply.request == request && if reply.permitted {
            &&& request.attribute_handle == before.handles.motor_command_value()
            &&& crate::motor_command::parsed_command(request.value@) matches Ok(command)
            &&& after.motor@.pending matches Some(pending)
            &&& pending.command == command
        } else {
            after.motor@.pending == before.motor@.pending
        },
{
}

impl AdvertisingSession {
    /// The connection, or else the advertisement, has outlived its time when the round began.
    pub open spec fn is_out_of_time(self) -> bool {
        match self.connection {
            Some(connection) => connection.deadline.ticks <= self.round_start.ticks,
            None => self.adv_deadline.ticks <= self.round_start.ticks,
        }
    }
}

/// Once the motor is taken care of, the session reads a packet, for 250 ms at most, unless its time is
/// up: without a central it then stops being discoverable, and with one it terminates the
/// connection. Nothing else of it changes.
pub proof fn law_deadlines_decide_what_comes_next(before: AdvertisingSession)
    ensures
        ({
            let after = before.deadlines_checked();
            &&& after == AdvertisingSession { step: after.step, ..before }
            &&& !before.is_out_of_time() ==> after.step == (SessionStep::Read { timeout_ms: 250 })
            &&& before.is_out_of_time() ==> match before.connection {
                Some(connection) => after.step == (SessionStep::Terminate {
                    conn_handle: connection.conn_handle,
                }),
                None => after.step is StopDiscoverable,
            }
        }),
{
}

/// A motor whose time is up is stopped, under the identifier of its command, before the deadlines are
/// looked at, and it is not watched any more.
pub proof fn law_due_motor_is_stopped_first(before: AdvertisingSession, now: Instant)
    ensures
        ({
            let after = before.watchdog_checked(now);
            match before.watchdog.active {
                Some(active) if now.ticks >= active.deadline.ticks => {
                    &&& after.step matches SessionStep::StopMotor(request)
                    &&& request.action == 0
                    &&& request.duration_ms == 0
                    &&& request.command_id == active.command_id
                    &&& after == AdvertisingSession {
                        step: after.step,
                        watchdog: MotorWatchdogState { active: None },
                        ..before
                    }
                },
                _ => after == before.deadlines_checked(),
            }
        }),
{
}

/// A round takes the command that waits: while it lives it is sent to the motor. Where there is none
/// or it has expired, which is told, the session goes on to the motor that runs. What became of the
/// last round's commands is forgotten. The rest of the session stays as it was.
pub proof fn law_round_begins_with_the_waiting_command(before: AdvertisingSession, now: Instant)
    ensures
        ({
            let after = before.round_begun(now);
            let begun = AdvertisingSession {
                round_start: now,
                motor: MotorCommandState { pending_request: None, ..before.motor },
                dispatch_outcome: None,
                write_outcome: None,
                ..before
            };
            match before.motor.pending_request {
                None => after == begun.watchdog_checked(now),
                Some(pending) => {
                    let age = (now.counter_ms() - pending.accepted_at_ms) % 0x1_0000_0000;
                    let payload = pending.payload;
                    &&& age < payload.expires_after_ms ==> after == AdvertisingSession {
                        step: SessionStep::Dispatch(
                            MotorDispatchStep::SendCommand {
                                request: crate::motor_uart::request_for(payload),
                                payload,
                            },
                        ),
                        ..begun
                    }
                    &&& age >= payload.expires_after_ms ==> after == (AdvertisingSession {
                        dispatch_outcome: Some(
                            MotorDispatchOutcome::ExpiredBeforeDispatch {
                                command_id: payload.command_id,
                            },
                        ),
                        ..begun
                    }).watchdog_checked(now)
                },
            }
        }),
{
}

/// What the motor replies to a dispatched command ends the dispatch with its outcome and its effect on
/// the watch, and the session goes on to the motor that runs. Only a run without an acknowledgement
/// is followed by its stop first. A reply to the stop of a motor whose time was up has no effect.
pub proof fn law_reply_of_the_motor_is_taken(
    before: AdvertisingSession,
    result: MotorUartResult,
    now: Instant,
    after: AdvertisingSession,
)
    requires
        before.leads_to(SessionEvent::MotorReply(result), now, after),
    ensures
        match before.step {
            SessionStep::Dispatch(dispatch) => {
                let watched = AdvertisingSession {
                    watchdog: dispatch.watchdog_after(before.watchdog, result, now),
                    ..before
                };
                match dispatch.after(result) {
                    MotorDispatchStep::Done(outcome) => after == (AdvertisingSession {
                        dispatch_outcome: outcome,
                        ..watched
                    }).watchdog_checked(now),
                    next => after == AdvertisingSession {
                        step: SessionStep::Dispatch(next),
                        ..watched
                    },
                }
            },
            SessionStep::StopMotor(_) => after == before.deadlines_checked(),
            _ => after == before,
        },
{
}

/// A central that connects has a minute, and its connection is the one that the session goes on with.
/// One that leaves ends the session. Neither touches anything else but that a round begins.
pub proof fn law_central_comes_and_goes(
    before: AdvertisingSession,
    conn_handle: u16,
    now: Instant,
    connected: AdvertisingSession,
    left: AdvertisingSession,
)
    requires
        before.step is Read,
        before.leads_to(
            SessionEvent::Read(
                HciRead::Event(HciEvent::LeConnectionComplete { success: true, conn_handle }),
            ),
            now,
            connected,
        ),
        before.leads_to(
            SessionEvent::Read(HciRead::Event(HciEvent::DisconnectionComplete)),
            now,
            left,
        ),
    ensures
        connected == (AdvertisingSession {
            connection: Some(Connection { conn_handle, deadline: now.plus_ms(60_000) }),
            ..before
        }).round_begun(now),
        connected.connection == Some(Connection { conn_handle, deadline: now.plus_ms(60_000) }),
        left == (AdvertisingSession { step: SessionStep::Ended, ..before }),
{
}

/// Any other packet, a fault or none begins a new round, and changes nothing else but that a late
/// interrupt is counted.
pub proof fn law_other_packets_begin_a_round(
    before: AdvertisingSession,
    read: HciRead,
    now: Instant,
    after: AdvertisingSession,
)
    requires
        before.step is Read,
        before.leads_to(SessionEvent::Read(read), now, after),
        read matches HciRead::Event(event) ==> match event {
            HciEvent::LeConnectionComplete { success, .. } => !success,
            HciEvent::DisconnectionComplete => false,
            HciEvent::AttWritePermitRequest(_) => false,
            _ => true,
        },
    ensures
        read == HciRead::Event(HciEvent::IsrDelay) ==> after == (AdvertisingSession {
            isr_delay_count: ((before.isr_delay_count + 1) % 0x1_0000_0000) as u32,
            ..before
        }).round_begun(now),
        read != HciRead::Event(HciEvent::IsrDelay) ==> after == before.round_begun(now),
{
}

/// A write is permitted if and only if it goes to the value of the motor command and the command is
/// accepted. What became of it is told, and of a write elsewhere nothing is. Nothing else changes but
/// the commands themselves.
pub proof fn law_write_is_permitted_where_it_is_accepted(
    before: AdvertisingSession,
    request: WriteRequest,
    now: Instant,
    after: AdvertisingSession,
)
    requires
        before.step is Read,
        before.leads_to(
            SessionEvent::Read(HciRead::Event(HciEvent::AttWritePermitRequest(request))),
            now,
            after,
        ),
    ensures
        ({
            let running = match before.watchdog.active {
                Some(active) => Some(active.command_id@),
                None => None,
            };
            let is_motor = request.attribute_handle == (before.handles.motor_command + 1)
                % 0x1_0000;
            &&& after.step matches SessionStep::Respond(reply)
            &&& reply.request == request
            &&& after == AdvertisingSession {
                motor: after.motor,
                write_outcome: after.write_outcome,
                step: after.step,
                ..before
            }
            &&& if is_motor {
                &&& after.write_outcome matches Some(outcome)
                &&& crate::motor_command::write_leads_to(
                    before.motor@,
                    request.value@,
                    now.counter_ms() as u32,
                    running,
                    after.motor@,
                    outcome@,
                )
                &&& reply.permitted <==> outcome is Accepted
            } else {
                !reply.permitted && after.write_outcome is None && after.motor == before.motor
            }
        }),
{
}

/// A session that stops being discoverable ends once the radio says how that went. A connection that
/// is terminated has ten seconds to end. Where the radio does not take the termination or an answer,
/// the session ends, and once an answer was given a new round begins.
pub proof fn law_session_winds_up(
    before: AdvertisingSession,
    event: SessionEvent,
    now: Instant,
    after: AdvertisingSession,
)
    requires
        before.leads_to(event, now, after),
    ensures
        ({
            let ended = AdvertisingSession { step: SessionStep::Ended, ..before };
            match (before.step, event) {
                (SessionStep::StopDiscoverable, SessionEvent::StopSent) => after
                    == AdvertisingSession { step: SessionStep::AwaitNondiscoverable, ..before },
                (SessionStep::AwaitNondiscoverable, SessionEvent::Read(read)) => {
                    if crate::hci::gap_set_nondiscoverable_wait(read) is Finished {
                        after == ended
                    } else {
                        after == before
                    }
                },
                (SessionStep::Terminate { conn_handle }, SessionEvent::Terminated { ok }) => {
                    &&& !ok ==> after == ended
                    &&& ok ==> after == AdvertisingSession {
                        connection: Some(
                            Connection { conn_handle, deadline: now.plus_ms(10_000) },
                        ),
                        step: SessionStep::Read { timeout_ms: 250 },
                        ..before
                    }
                },
                (SessionStep::Respond(_), SessionEvent::Responded { ok }) => {
                    &&& !ok ==> after == ended
                    &&& ok ==> after == before.round_begun(now)
                },
                (SessionStep::Dispatch(_), SessionEvent::MotorReply(_)) => true,
                (SessionStep::StopMotor(_), SessionEvent::MotorReply(_)) => true,
                (SessionStep::Read { .. }, SessionEvent::Read(_)) => true,
                _ => after == before,
            }
        }),
{
}

/// A session starts without a central and advertises for a minute. It takes the commands and the watch
/// of the motor over as they are.
pub proof fn law_session_advertises_for_a_minute(
    handles: GattHandles,
    motor: MotorCommandState,
    watchdog: MotorWatchdogState,
    now: Instant,
)
    ensures
        ({
            let start = AdvertisingSession::opened(handles, motor, watchdog, now);
            &&& start.adv_deadline == now.plus_ms(60_000)
            &&& start.connection is None
            &&& start.isr_delay_count == 0
            &&& start.handles == handles
            &&& start.motor == motor
            &&& start.watchdog == watchdog
            &&& start.dispatch_outcome is None && start.write_outcome is None
        }),
{
}

} // verus!
