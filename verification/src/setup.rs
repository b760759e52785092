//! First set-up: the session in which the hub picks the probe up, and the mark in flash that it
//! has done so.
//!
//! Until the mark is there the probe advertises under its set-up name. The hub connects, writes the
//! confirmation, and disconnects. The program performs what [`SetupStep`] asks for and reports the
//! outcome as a [`SetupEvent`].
use vstd::prelude::*;

use crate::advertising::Connection;
use crate::bytes::same_bytes;
use crate::clock::Instant;
use crate::config::{BLE_CONNECTED_TIMEOUT_MS, BLE_TERMINATE_WAIT_MS};
use crate::gatt::GattHandles;
use crate::hci::{
    wait_for_gap_set_discoverable_complete, wait_for_gap_update_advertising_data_complete,
    CommandWait, HciEvent, HciRead, WriteReply, WriteRequest,
};

verus! {

/// "HHSETUP1": what the hub writes to confirm the set-up, and what marks it complete in flash.
pub const SETUP_COMPLETE_MAGIC: [u8; 8] = [0x48, 0x48, 0x53, 0x45, 0x54, 0x55, 0x50, 0x31];

/// Where in flash the mark stands.
pub const SETUP_FLAG_PAGE_OFFSET: u32 = 0x2_f000;

pub const SETUP_FLAG_PAGE_SIZE: u32 = 0x1000;

/// Flash that the application may use.
pub const APPLICATION_FLASH_SIZE: u32 = 0x3_0000;

/// What the session asks for next.
#[derive(Debug, PartialEq, Eq)]
pub enum SetupStep {
    /// Set the scan response of the set-up.
    SetScanResponse,
    /// Read one packet, whatever it is.
    ReadScanResponse,
    /// Give the command to become discoverable.
    SetDiscoverable,
    /// Read a packet, within the time that a command may take.
    AwaitDiscoverable,
    /// Give the command to advertise the data of the set-up.
    UpdateAdvertisingData,
    /// Read a packet, within the time that a command may take.
    AwaitAdvertisingData,
    /// Terminate the connection.
    Terminate { conn_handle: u16 },
    /// Read a packet, however long it takes.
    Read,
    /// Answer a request to write.
    Respond(WriteReply),
    /// The session is over. It tells whether the hub has confirmed.
    Ended { confirmed: bool },
}

/// What came of a step.
#[derive(Debug, PartialEq, Eq)]
pub enum SetupEvent {
    /// Whether the command could be given.
    Sent { ok: bool },
    Read(HciRead),
}

/// A session in which the probe waits to be picked up.
#[derive(Debug, PartialEq, Eq)]
pub struct SetupSession {
    pub handles: GattHandles,
    pub connection: Option<Connection>,
    pub confirmed: bool,
    pub isr_delay_count: u32,
    pub step: SetupStep,
}

impl SetupSession {
    /// The next packet is awaited, unless the connection is stale.
    pub open spec fn deadline_checked(self, now: Instant) -> SetupSession {
        let step = match self.connection {
            Some(connection) => if now.ticks >= connection.deadline.ticks {
                SetupStep::Terminate { conn_handle: connection.conn_handle }
            } else {
                SetupStep::Read
            },
            None => SetupStep::Read,
        };
        SetupSession { step, ..self }
    }

    pub open spec fn failed(self) -> SetupSession {
        SetupSession { step: SetupStep::Ended { confirmed: false }, ..self }
    }

    /// The request is the confirmation of the hub.
    pub open spec fn is_confirmation(self, request: WriteRequest) -> bool {
        request.attribute_handle == self.handles.setup_confirm_value() && request.value@
            == SETUP_COMPLETE_MAGIC@
    }

    /// The session once `read` came at `now`.
    pub open spec fn packet_handled(self, read: HciRead, now: Instant) -> SetupSession {
        match read {
            HciRead::Event(HciEvent::IsrDelay) => (SetupSession {
                isr_delay_count: ((self.isr_delay_count + 1) % 0x1_0000_0000) as u32,
                ..self
            }).deadline_checked(now),
            HciRead::Event(HciEvent::LeConnectionComplete { success: true, conn_handle }) => (
            SetupSession {
                connection: Some(
                    Connection {
                        conn_handle,
                        deadline: now.plus_ms(BLE_CONNECTED_TIMEOUT_MS as int),
                    },
                ),
                ..self
            }).deadline_checked(now),
            HciRead::Event(HciEvent::DisconnectionComplete) => if self.confirmed {
                SetupSession { step: SetupStep::Ended { confirmed: true }, ..self }
            } else {
                SetupSession { connection: None, step: SetupStep::SetDiscoverable, ..self }
            },
            HciRead::Event(HciEvent::AttWritePermitRequest(request)) => {
                let permitted = self.is_confirmation(request);
                SetupSession {
                    confirmed: self.confirmed || permitted,
                    step: SetupStep::Respond(WriteReply { request, permitted }),
                    ..self
                }
            },
            _ => self.deadline_checked(now),
        }
    }

    /// The session once `event` came at `now`. An event that does not answer what the session
    /// asked for changes nothing.
    pub open spec fn after(self, event: SetupEvent, now: Instant) -> SetupSession {
        match (self.step, event) {
            (SetupStep::SetScanResponse, SetupEvent::Sent { ok }) => if ok {
                SetupSession { step: SetupStep::ReadScanResponse, ..self }
            } else {
                self.failed()
            },
            (SetupStep::ReadScanResponse, SetupEvent::Read(_)) => SetupSession {
                step: SetupStep::SetDiscoverable,
                ..self
            },
            (SetupStep::SetDiscoverable, SetupEvent::Sent { ok }) => if ok {
                SetupSession { step: SetupStep::AwaitDiscoverable, ..self }
            } else {
                self.failed()
            },
            (SetupStep::AwaitDiscoverable, SetupEvent::Read(read)) => {
                match crate::hci::gap_set_discoverable_wait(read) {
                    CommandWait::KeepReading => self,
                    CommandWait::Finished(ok) => if ok {
                        SetupSession { step: SetupStep::UpdateAdvertisingData, ..self }
                    } else {
                        self.failed()
                    },
                }
            },
            (SetupStep::UpdateAdvertisingData, SetupEvent::Sent { ok }) => if ok {
                SetupSession { step: SetupStep::AwaitAdvertisingData, ..self }
            } else {
                self.failed()
            },
            (SetupStep::AwaitAdvertisingData, SetupEvent::Read(read)) => {
                match crate::hci::gap_update_advertising_data_wait(read) {
                    CommandWait::KeepReading => self,
                    CommandWait::Finished(ok) => if ok {
                        self.deadline_checked(now)
                    } else {
                        self.failed()
                    },
                }
            },
            (SetupStep::Terminate { conn_handle }, SetupEvent::Sent { ok }) => if ok {
                SetupSession {
                    connection: Some(
                        Connection {
                            conn_handle,
                            deadline: now.plus_ms(BLE_TERMINATE_WAIT_MS as int),
                        },
                    ),
                    step: SetupStep::Read,
                    ..self
                }
            } else {
                self.failed()
            },
            (SetupStep::Read, SetupEvent::Read(read)) => self.packet_handled(read, now),
            (SetupStep::Respond(_), SetupEvent::Sent { ok }) => if ok {
                self.deadline_checked(now)
            } else {
                self.failed()
            },
            _ => self,
        }
    }
}

impl SetupSession {
    /// A session as it starts.
    pub open spec fn opened(handles: GattHandles) -> SetupSession {
        SetupSession {
            handles,
            connection: None,
            confirmed: false,
            isr_delay_count: 0,
            step: SetupStep::SetScanResponse,
        }
    }
}

/// Starts a session in which the probe waits to be picked up.
pub fn run_setup_advertising_session(handles: &GattHandles) -> (r: SetupSession)
    ensures
        r == SetupSession::opened(*handles),
        r == (SetupSession {
            handles: *handles,
            connection: None,
            confirmed: false,
            isr_delay_count: 0,
            step: SetupStep::SetScanResponse,
        }),
{
    SetupSession {
        handles: *handles,
        connection: None,
        confirmed: false,
        isr_delay_count: 0,
        step: SetupStep::SetScanResponse,
    }
}

impl SetupSession {
    fn check_deadline(&mut self, now: Instant)
        ensures
            *final(self) == old(self).deadline_checked(now),
    {
        self.step = match self.connection {
            Some(connection) => if now.reached(connection.deadline) {
                SetupStep::Terminate { conn_handle: connection.conn_handle }
            } else {
                SetupStep::Read
            },
            None => SetupStep::Read,
        };
    }

    /// Goes on with `step` where the command could be given or ended well.
    fn go_on(&mut self, ok: bool, step: SetupStep)
        ensures
            ok ==> *final(self) == (SetupSession { step, ..*old(self) }),
            !ok ==> *final(self) == old(self).failed(),
    {
        self.step = if ok {
            step
        } else {
            SetupStep::Ended { confirmed: false }
        };
    }

    fn handle_packet(&mut self, read: HciRead, now: Instant)
        requires
            now.valid(),
        ensures
            *final(self) == old(self).packet_handled(read, now),
    {
        match read {
            HciRead::Event(HciEvent::IsrDelay) => {
                self.isr_delay_count = self.isr_delay_count.wrapping_add(1);
                self.check_deadline(now);
            },
            HciRead::Event(HciEvent::LeConnectionComplete { success: true, conn_handle }) => {
                let deadline = now.after_millis(BLE_CONNECTED_TIMEOUT_MS);
                self.connection = Some(Connection { conn_handle, deadline });
                self.check_deadline(now);
            },
            HciRead::Event(HciEvent::DisconnectionComplete) => {
                if self.confirmed {
                    self.step = SetupStep::Ended { confirmed: true };
                } else {
                    self.connection = None;
                    self.step = SetupStep::SetDiscoverable;
                }
            },
            HciRead::Event(HciEvent::AttWritePermitRequest(request)) => {
                let magic = SETUP_COMPLETE_MAGIC;
                let permitted = request.attribute_handle
                    == self.handles.setup_confirm_value_handle() && same_bytes(
                    request.value.as_slice(),
                    magic.as_slice(),
                );
                if permitted {
                    self.confirmed = true;
                }
                self.step = SetupStep::Respond(WriteReply { request, permitted });
            },
            _ => {
                self.check_deadline(now);
            },
        }
    }

    /// What the session asked for came to `event` at `now`.
    pub fn next(&mut self, event: SetupEvent, now: Instant)
        requires
            now.valid(),
        ensures
            *final(self) == old(self).after(event, now),
    {
        match (&self.step, event) {
            (SetupStep::SetScanResponse, SetupEvent::Sent { ok }) => {
                self.go_on(ok, SetupStep::ReadScanResponse);
            },
            (SetupStep::ReadScanResponse, SetupEvent::Read(_)) => {
                self.step = SetupStep::SetDiscoverable;
            },
            (SetupStep::SetDiscoverable, SetupEvent::Sent { ok }) => {
                self.go_on(ok, SetupStep::AwaitDiscoverable);
            },
            (SetupStep::AwaitDiscoverable, SetupEvent::Read(read)) => {
                match wait_for_gap_set_discoverable_complete(&read) {
                    CommandWait::KeepReading => {},
                    CommandWait::Finished(ok) => {
                        self.go_on(ok, SetupStep::UpdateAdvertisingData);
                    },
                }
            },
            (SetupStep::UpdateAdvertisingData, SetupEvent::Sent { ok }) => {
                self.go_on(ok, SetupStep::AwaitAdvertisingData);
            },
            (SetupStep::AwaitAdvertisingData, SetupEvent::Read(read)) => {
                match wait_for_gap_update_advertising_data_complete(&read) {
                    CommandWait::KeepReading => {},
                    CommandWait::Finished(ok) => {
                        if ok {
                            self.check_deadline(now);
                        } else {
                            self.step = SetupStep::Ended { confirmed: false };
                        }
                    },
                }
            },
            (SetupStep::Terminate { conn_handle }, SetupEvent::Sent { ok }) => {
                if ok {
                    let deadline = now.after_millis(BLE_TERMINATE_WAIT_MS);
                    self.connection = Some(Connection { conn_handle: *conn_handle, deadline });
                    self.step = SetupStep::Read;
                } else {
                    self.step = SetupStep::Ended { confirmed: false };
                }
            },
            (SetupStep::Read, SetupEvent::Read(read)) => {
                self.handle_packet(read, now);
            },
            (SetupStep::Respond(_), SetupEvent::Sent { ok }) => {
                if ok {
                    self.check_deadline(now);
                } else {
                    self.step = SetupStep::Ended { confirmed: false };
                }
            },
            _ => {},
        }
    }
}

/// Set-up is pending unless the mark could be read and is there.
pub open spec fn is_pending(stored: Option<Seq<u8>>) -> bool {
    stored != Some(SETUP_COMPLETE_MAGIC@)
}

/// Whether set-up is still pending. `stored` is what stands in flash, from
/// [`SETUP_FLAG_PAGE_OFFSET`] on, where it could be read.
pub fn first_boot_setup_is_pending(stored: Option<[u8; 8]>) -> (r: bool)
    ensures
        r == is_pending(
            match stored {
                Some(bytes) => Some(bytes@),
                None => None,
            },
        ),
{
    match stored {
        Some(bytes) => {
            let magic = SETUP_COMPLETE_MAGIC;
            !same_bytes(bytes.as_slice(), magic.as_slice())
        },
        None => true,
    }
}

/// What to do next to mark the set-up as complete.
#[derive(Clone, Copy, Debug, PartialEq, Eq)]
pub enum FlashStep {
    /// Erase flash from `from` up to `to`.
    Erase { from: u32, to: u32 },
    Write { offset: u32, data: [u8; 8] },
    /// Whether the mark is there.
    Finished { ok: bool },
}

/// The first step to mark the set-up as complete.
pub open spec fn marking_begun() -> FlashStep {
    FlashStep::Erase {
        from: SETUP_FLAG_PAGE_OFFSET,
        to: (SETUP_FLAG_PAGE_OFFSET + SETUP_FLAG_PAGE_SIZE) as u32,
    }
}

/// Starts to mark the set-up as complete: the page is erased first.
pub fn mark_first_boot_setup_complete() -> (r: FlashStep)
    ensures
        r == marking_begun(),
        r == (FlashStep::Erase {
            from: SETUP_FLAG_PAGE_OFFSET,
            to: (SETUP_FLAG_PAGE_OFFSET + SETUP_FLAG_PAGE_SIZE) as u32,
        }),
{
    FlashStep::Erase {
        from: SETUP_FLAG_PAGE_OFFSET,
        to: SETUP_FLAG_PAGE_OFFSET + SETUP_FLAG_PAGE_SIZE,
    }
}

impl FlashStep {
    /// The step that follows.
    pub open spec fn after(self, ok: bool) -> FlashStep {
        match self {
            FlashStep::Erase { .. } => if ok {
                FlashStep::Write { offset: SETUP_FLAG_PAGE_OFFSET, data: SETUP_COMPLETE_MAGIC }
            } else {
                FlashStep::Finished { ok: false }
            },
            FlashStep::Write { .. } => FlashStep::Finished { ok },
            FlashStep::Finished { .. } => self,
        }
    }

    /// The step was performed, or could not be.
    pub fn performed(self, ok: bool) -> (r: FlashStep)
        ensures
            r == self.after(ok),
    {
        match self {
            FlashStep::Erase { .. } => if ok {
                FlashStep::Write { offset: SETUP_FLAG_PAGE_OFFSET, data: SETUP_COMPLETE_MAGIC }
            } else {
                FlashStep::Finished { ok: false }
            },
            FlashStep::Write { .. } => FlashStep::Finished { ok },
            FlashStep::Finished { .. } => self,
        }
    }
}

/// What marks the set-up as complete reads back as complete, and marking succeeds if and only if
/// both the erasure and the write do.
pub proof fn law_marked_setup_is_complete(start: FlashStep, erased: bool, written: bool)
    requires
        start is Erase,
    ensures
        start.after(true) matches FlashStep::Write { offset, data } && offset
            == SETUP_FLAG_PAGE_OFFSET && !is_pending(Some(data@)),
        start.after(erased).after(written) == (FlashStep::Finished { ok: erased && written }),
{
}

/// The mark stands on the last page of the application's flash, alone.
pub proof fn law_mark_has_a_page_of_its_own()
    ensures
        SETUP_FLAG_PAGE_OFFSET % SETUP_FLAG_PAGE_SIZE == 0,
        SETUP_FLAG_PAGE_OFFSET + SETUP_FLAG_PAGE_SIZE == APPLICATION_FLASH_SIZE,
        SETUP_COMPLETE_MAGIC@.len() <= SETUP_FLAG_PAGE_SIZE,
{
}

/// A session only ends as confirmed where the hub has confirmed: that is so when it starts, and
/// every event keeps it.
pub proof fn law_setup_ends_only_after_confirmation(
    before: SetupSession,
    event: SetupEvent,
    now: Instant,
)
    requires
        before.step == (SetupStep::Ended { confirmed: true }) ==> before.confirmed,
    ensures
        before.after(event, now).step == (SetupStep::Ended { confirmed: true })
            ==> before.after(event, now).confirmed,
{
}

/// Only a write of the confirmation to its characteristic confirms, and a confirmation is never
/// taken back.
pub proof fn law_only_the_confirmation_confirms(
    before: SetupSession,
    event: SetupEvent,
    now: Instant,
)
    ensures
        before.confirmed ==> before.after(event, now).confirmed,
        !before.confirmed && before.after(event, now).confirmed ==> {
            &&& before.step is Read
            &&& event matches SetupEvent::Read(
                HciRead::Event(HciEvent::AttWritePermitRequest(request)),
            )
            &&& before.is_confirmation(request)
        },
{
}

/// A hub that leaves without confirming does not end the session: the probe becomes discoverable
/// again. One that has confirmed ends it.
pub proof fn law_disconnection_ends_only_a_confirmed_setup(before: SetupSession, now: Instant)
    requires
        before.step is Read,
    ensures
        ({
            let after = before.after(
                SetupEvent::Read(HciRead::Event(HciEvent::DisconnectionComplete)),
                now,
            );
            if before.confirmed {
                after.step == (SetupStep::Ended { confirmed: true })
            } else {
                after.step is SetDiscoverable && after.connection is None
            }
        }),
{
}

/// No motor command is taken during set-up: a write is permitted only where it is the confirmation.
pub proof fn law_setup_permits_the_confirmation_alone(
    before: SetupSession,
    request: WriteRequest,
    now: Instant,
)
    requires
        before.step is Read,
    ensures
        before.after(
            SetupEvent::Read(HciRead::Event(HciEvent::AttWritePermitRequest(request))),
            now,
        ).step == SetupStep::Respond(
            WriteReply { request, permitted: before.is_confirmation(request) },
        ),
        crate::motor_command::parsed_command(request.value@) is Ok ==> !before.is_confirmation(
            request,
        ),
{
}

/// Set-up is pending unless "HHSETUP1" stands in flash, and those are the bytes that the hub writes
/// to confirm it, at the handle right after that of the confirmation's declaration.
pub proof fn law_setup_is_confirmed_by_its_word(
    session: SetupSession,
    request: WriteRequest,
    stored: Seq<u8>,
)
    ensures
        ({
            let word = seq![0x48u8, 0x48, 0x53, 0x45, 0x54, 0x55, 0x50, 0x31];
            &&& is_pending(None)
            &&& is_pending(Some(stored)) <==> stored != word
            &&& session.is_confirmation(request) <==> request.value@ == word
                && request.attribute_handle == (session.handles.setup_confirm + 1) % 0x1_0000
        }),
{
    assert(SETUP_COMPLETE_MAGIC@ =~= seq![0x48u8, 0x48, 0x53, 0x45, 0x54, 0x55, 0x50, 0x31]);
}

/// A session opens by setting the scan response, becoming discoverable and advertising the data of
/// the set-up, and then waits for the hub.
pub proof fn law_setup_opens_in_order(
    handles: GattHandles,
    packet: HciRead,
    discoverable: HciRead,
    updated: HciRead,
    now: Instant,
)
    requires
        crate::hci::gap_set_discoverable_wait(discoverable) == CommandWait::Finished(true),
        crate::hci::gap_update_advertising_data_wait(updated) == CommandWait::Finished(true),
    ensures
        ({
            let s0 = SetupSession::opened(handles);
            let s1 = s0.after(SetupEvent::Sent { ok: true }, now);
            let s2 = s1.after(SetupEvent::Read(packet), now);
            let s3 = s2.after(SetupEvent::Sent { ok: true }, now);
            let s4 = s3.after(SetupEvent::Read(discoverable), now);
            let s5 = s4.after(SetupEvent::Sent { ok: true }, now);
            let s6 = s5.after(SetupEvent::Read(updated), now);
            &&& s0.step is SetScanResponse && s0.handles == handles
            &&& s0.connection is None && !s0.confirmed && s0.isr_delay_count == 0
            &&& s1.step is ReadScanResponse
            &&& s2.step is SetDiscoverable
            &&& s3.step is AwaitDiscoverable
            &&& s4.step is UpdateAdvertisingData
            &&& s5.step is AwaitAdvertisingData
            &&& s6 == SetupSession { step: SetupStep::Read, ..s0 }
        }),
{
}

/// A command that could not be given, or that failed, ends the session without a confirmation, and
/// changes nothing else.
pub proof fn law_failed_command_ends_the_setup(before: SetupSession, event: SetupEvent, now: Instant)
    requires
        match before.step {
            SetupStep::SetScanResponse => event == (SetupEvent::Sent { ok: false }),
            SetupStep::SetDiscoverable => event == (SetupEvent::Sent { ok: false }),
            SetupStep::AwaitDiscoverable => event matches SetupEvent::Read(read)
                && crate::hci::gap_set_discoverable_wait(read) == CommandWait::Finished(false),
            SetupStep::UpdateAdvertisingData => event == (SetupEvent::Sent { ok: false }),
            SetupStep::AwaitAdvertisingData => event matches SetupEvent::Read(read)
                && crate::hci::gap_update_advertising_data_wait(read) == CommandWait::Finished(
                false,
            ),
            SetupStep::Terminate { .. } => event == (SetupEvent::Sent { ok: false }),
            SetupStep::Respond(_) => event == (SetupEvent::Sent { ok: false }),
            _ => false,
        },
    ensures
        before.after(event, now) == (SetupSession {
            step: SetupStep::Ended { confirmed: false },
            ..before
        }),
{
}

/// A hub that connects has a minute: the connection is kept with its handle, and the session goes on
/// reading.
pub proof fn law_hub_has_a_minute(before: SetupSession, conn_handle: u16, now: Instant)
    requires
        before.step is Read,
        now.valid(),
    ensures
        ({
            let after = before.after(
                SetupEvent::Read(
                    HciRead::Event(HciEvent::LeConnectionComplete { success: true, conn_handle }),
                ),
                now,
            );
            after == SetupSession {
                connection: Some(Connection { conn_handle, deadline: now.plus_ms(60_000) }),
                ..before
            }
        }),
{
}

/// A packet that says nothing to the session leaves it waiting for the next one, unless the time of
/// the connection is up: then the connection is terminated, and the hub has ten seconds to leave. A
/// late interrupt is counted besides.
pub proof fn law_stale_hub_is_sent_away(before: SetupSession, read: HciRead, now: Instant)
    requires
        before.step is Read,
        read matches HciRead::Event(event) ==> match event {
            HciEvent::LeConnectionComplete { success, .. } => !success,
            HciEvent::DisconnectionComplete => false,
            HciEvent::AttWritePermitRequest(_) => false,
            _ => true,
        },
    ensures
        ({
            let after = before.after(SetupEvent::Read(read), now);
            &&& after.handles == before.handles
            &&& after.connection == before.connection
            &&& after.confirmed == before.confirmed
            &&& read == HciRead::Event(HciEvent::IsrDelay) ==> after.isr_delay_count == (
            before.isr_delay_count + 1) % 0x1_0000_0000
            &&& read != HciRead::Event(HciEvent::IsrDelay) ==> after.isr_delay_count
                == before.isr_delay_count
            &&& match before.connection {
                None => after.step is Read,
                Some(connection) => {
                    &&& now.ticks < connection.deadline.ticks ==> after.step is Read
                    &&& now.ticks >= connection.deadline.ticks ==> {
                        let left = after.after(SetupEvent::Sent { ok: true }, now);
                        &&& after.step == (SetupStep::Terminate {
                            conn_handle: connection.conn_handle,
                        })
                        &&& left.step is Read
                        &&& left.connection == Some(
                            Connection {
                                conn_handle: connection.conn_handle,
                                deadline: now.plus_ms(10_000),
                            },
                        )
                        &&& left.confirmed == before.confirmed
                    }
                },
            }
        }),
{
}

/// Once a write was answered the session waits for the next packet, unless the time of the connection
/// is up.
pub proof fn law_setup_goes_on_after_its_answer(before: SetupSession, now: Instant)
    requires
        before.step is Respond,
    ensures
        ({
            let after = before.after(SetupEvent::Sent { ok: true }, now);
            let stale = match before.connection {
                Some(connection) => now.ticks >= connection.deadline.ticks,
                None => false,
            };
            &&& after == SetupSession { step: after.step, ..before }
            &&& stale ==> after.step == (SetupStep::Terminate {
                conn_handle: before.connection.unwrap().conn_handle,
            })
            &&& !stale ==> after.step is Read
        }),
{
}

/// An event that does not answer what the session asked for changes nothing, and a session that has
/// ended stays as it is.
pub proof fn law_setup_waits_for_its_answer(before: SetupSession, event: SetupEvent, now: Instant)
    requires
        match before.step {
            SetupStep::ReadScanResponse => event !is Read,
            SetupStep::AwaitDiscoverable => event matches SetupEvent::Read(read)
                ==> crate::hci::gap_set_discoverable_wait(read) is KeepReading,
            SetupStep::AwaitAdvertisingData => event matches SetupEvent::Read(read)
                ==> crate::hci::gap_update_advertising_data_wait(read) is KeepReading,
            SetupStep::Read => event !is Read,
            SetupStep::Ended { .. } => true,
            _ => event !is Sent,
        },
    ensures
        before.after(event, now) == before,
{
}

/// A command of the set-up that was given, and one that ended well, leads on to the next, whether the
/// hub was there before or not, and changes nothing else.
pub proof fn law_setup_goes_on_step_by_step(before: SetupSession, packet: HciRead, now: Instant)
    ensures
        ({
            let given = before.after(SetupEvent::Sent { ok: true }, now);
            let read = before.after(SetupEvent::Read(packet), now);
            let discoverable = crate::hci::gap_set_discoverable_wait(packet)
                == CommandWait::Finished(true);
            let updated = crate::hci::gap_update_advertising_data_wait(packet)
                == CommandWait::Finished(true);
            &&& before.step is SetScanResponse ==> given == SetupSession {
                step: SetupStep::ReadScanResponse,
                ..before
            }
            &&& before.step is ReadScanResponse ==> read == SetupSession {
                step: SetupStep::SetDiscoverable,
                ..before
            }
            &&& before.step is SetDiscoverable ==> given == SetupSession {
                step: SetupStep::AwaitDiscoverable,
                ..before
            }
            &&& before.step is AwaitDiscoverable && discoverable ==> read == SetupSession {
                step: SetupStep::UpdateAdvertisingData,
                ..before
            }
            &&& before.step is UpdateAdvertisingData ==> given == SetupSession {
                step: SetupStep::AwaitAdvertisingData,
                ..before
            }
            &&& before.step is AwaitAdvertisingData && updated && before.connection is None ==> read
                == SetupSession { step: SetupStep::Read, ..before }
            &&& before.step is AwaitAdvertisingData && updated ==> (
            before.connection matches Some(connection) ==> if now.ticks
                < connection.deadline.ticks {
                read == SetupSession { step: SetupStep::Read, ..before }
            } else {
                read == SetupSession {
                    step: SetupStep::Terminate { conn_handle: connection.conn_handle },
                    ..before
                }
            })
            &&& (before.step matches SetupStep::Terminate { conn_handle } ==> given
                == SetupSession {
                connection: Some(Connection { conn_handle, deadline: now.plus_ms(10_000) }),
                step: SetupStep::Read,
                ..before
            })
        }),
{
}

/// A write is answered as it deserves, and the confirmation counts from then on. A hub that leaves ends
/// the session if it has confirmed, and is forgotten otherwise. Nothing else changes.
pub proof fn law_setup_takes_writes_and_departures(
    before: SetupSession,
    request: WriteRequest,
    now: Instant,
)
    requires
        before.step is Read,
    ensures
        ({
            let written = before.after(
                SetupEvent::Read(HciRead::Event(HciEvent::AttWritePermitRequest(request))),
                now,
            );
            let left = before.after(
                SetupEvent::Read(HciRead::Event(HciEvent::DisconnectionComplete)),
                now,
            );
            &&& written == SetupSession {
                confirmed: written.confirmed,
                step: SetupStep::Respond(
                    WriteReply { request, permitted: before.is_confirmation(request) },
                ),
                ..before
            }
            &&& written.confirmed <==> before.confirmed || before.is_confirmation(request)
            &&& before.confirmed ==> left == SetupSession {
                step: SetupStep::Ended { confirmed: true },
                ..before
            }
            &&& !before.confirmed ==> left == SetupSession {
                connection: None,
                step: SetupStep::SetDiscoverable,
                ..before
            }
        }),
{
}

/// The mark is put on the last page below 0x30000, which is erased first: "HHSETUP1", from 0x2f000 on.
pub proof fn law_mark_is_put_on_its_page(ok: bool)
    ensures
        marking_begun() == (FlashStep::Erase { from: 0x2_f000, to: 0x3_0000 }),
        marking_begun().after(true) matches FlashStep::Write { offset, data } && offset == 0x2_f000
            && data@ == seq![0x48u8, 0x48, 0x53, 0x45, 0x54, 0x55, 0x50, 0x31],
        marking_begun().after(false) == (FlashStep::Finished { ok: false }),
        forall|offset: u32, data: [u8; 8]|
            (#[trigger] (FlashStep::Write { offset, data }).after(ok)) == (FlashStep::Finished {
                ok,
            }),
        forall|done: bool|
            (#[trigger] (FlashStep::Finished { ok: done }).after(ok)) == (FlashStep::Finished {
                ok: done,
            }),
{
    assert(SETUP_COMPLETE_MAGIC@ =~= seq![0x48u8, 0x48, 0x53, 0x45, 0x54, 0x55, 0x50, 0x31]);
}

} // verus!
