//! The attributes that the probe offers: registration of the Environmental Sensing service, and
//! publication of measured values.
use vstd::prelude::*;

use crate::bytes::{copy_bytes, i16_to_be, u16_to_be, u32_to_be};
use crate::config::{
    ENVIRONMENTAL_SENSING_SERVICE_UUID16, HUM_CHAR_UUID16, PRESSURE_CHAR_UUID16, TEMP_CHAR_UUID16,
};
use crate::hci::{
    wait_for_gatt_add_characteristic_complete, wait_for_gatt_add_service_complete,
    wait_for_gatt_update_complete, CommandWait, HciRead,
};
use crate::snapshot::SensorSnapshot;

verus! {

/// Characteristics with 128-bit UUIDs, least significant byte first.
pub const PROBE_UUID_CHAR_UUID: [u8; 16] = [
    0xfb, 0x34, 0x9b, 0x5f, 0x80, 0x00, 0x00, 0x80, 0x00, 0x10, 0x00, 0x00, 0x02, 0x00, 0x34, 0x12,
];

pub const SOIL_TEMPERATURE_CHAR_UUID: [u8; 16] = [
    0xfb, 0x34, 0x9b, 0x5f, 0x80, 0x00, 0x00, 0x80, 0x00, 0x10, 0x00, 0x00, 0x03, 0x00, 0x34, 0x12,
];

pub const SOIL_HUMIDITY_CHAR_UUID: [u8; 16] = [
    0xfb, 0x34, 0x9b, 0x5f, 0x80, 0x00, 0x00, 0x80, 0x00, 0x10, 0x00, 0x00, 0x04, 0x00, 0x34, 0x12,
];

pub const SETUP_CONFIRM_CHAR_UUID: [u8; 16] = [
    0xfb, 0x34, 0x9b, 0x5f, 0x80, 0x00, 0x00, 0x80, 0x00, 0x10, 0x00, 0x00, 0x05, 0x00, 0x34, 0x12,
];

pub const MOTOR_COMMAND_CHAR_UUID: [u8; 16] = [
    0xfb, 0x34, 0x9b, 0x5f, 0x80, 0x00, 0x00, 0x80, 0x00, 0x10, 0x00, 0x00, 0x06, 0x00, 0x34, 0x12,
];

/// Attribute records that the service asks for.
pub const SERVICE_ATTRIBUTE_RECORDS: u8 = 24;

/// Size of the key that a characteristic asks for, in bytes.
pub const CHARACTERISTIC_KEY_SIZE: u8 = 7;

/// How many characteristics the service has.
pub const CHARACTERISTIC_COUNT: usize = 8;

/// Characters of the probe's own UUID.
pub const PROBE_UUID_LEN: u16 = 36;

/// How many values are published after a measurement.
pub const UPDATE_COUNT: usize = 6;

#[derive(Clone, Copy, Debug, PartialEq, Eq)]
pub enum CharacteristicUuid {
    Uuid16(u16),
    Uuid128([u8; 16]),
}

/// What the central may do with a characteristic. A write waits for the permission of the probe.
#[derive(Clone, Copy, Debug, PartialEq, Eq, Structural)]
pub enum CharacteristicAccess {
    Read,
    WriteWithPermission,
}

#[derive(Clone, Copy, Debug, PartialEq, Eq)]
pub struct GattCharacteristic {
    pub uuid: CharacteristicUuid,
    pub access: CharacteristicAccess,
    pub value_len: u16,
    pub encryption_key_size: u8,
    /// Whether the length of the value may vary.
    pub is_variable: bool,
}

/// The characteristics in the order of their registration: probe UUID, air temperature, air
/// pressure, air humidity, soil temperature, soil humidity, set-up confirmation, motor command.
pub open spec fn characteristic(index: int) -> GattCharacteristic {
    let read = CharacteristicAccess::Read;
    let write = CharacteristicAccess::WriteWithPermission;
    let (uuid, access, value_len) = if index == 0 {
        (CharacteristicUuid::Uuid128(PROBE_UUID_CHAR_UUID), read, 36u16)
    } else if index == 1 {
        (CharacteristicUuid::Uuid16(TEMP_CHAR_UUID16), read, 2u16)
    } else if index == 2 {
        (CharacteristicUuid::Uuid16(PRESSURE_CHAR_UUID16), read, 4u16)
    } else if index == 3 {
        (CharacteristicUuid::Uuid16(HUM_CHAR_UUID16), read, 2u16)
    } else if index == 4 {
        (CharacteristicUuid::Uuid128(SOIL_TEMPERATURE_CHAR_UUID), read, 2u16)
    } else if index == 5 {
        (CharacteristicUuid::Uuid128(SOIL_HUMIDITY_CHAR_UUID), read, 2u16)
    } else if index == 6 {
        (CharacteristicUuid::Uuid128(SETUP_CONFIRM_CHAR_UUID), write, 8u16)
    } else {
        (CharacteristicUuid::Uuid128(MOTOR_COMMAND_CHAR_UUID), write, 30u16)
    };
    GattCharacteristic {
        uuid,
        access,
        value_len,
        encryption_key_size: CHARACTERISTIC_KEY_SIZE,
        is_variable: false,
    }
}

/// The characteristic at a place in the order of registration.
pub fn gatt_characteristic(index: usize) -> (r: GattCharacteristic)
    requires
        index < CHARACTERISTIC_COUNT,
    ensures
        r == characteristic(index as int),
{
    let read = CharacteristicAccess::Read;
    let write = CharacteristicAccess::WriteWithPermission;
    let (uuid, access, value_len) = match index {
        0 => (CharacteristicUuid::Uuid128(PROBE_UUID_CHAR_UUID), read, PROBE_UUID_LEN),
        1 => (CharacteristicUuid::Uuid16(TEMP_CHAR_UUID16), read, 2u16),
        2 => (CharacteristicUuid::Uuid16(PRESSURE_CHAR_UUID16), read, 4u16),
        3 => (CharacteristicUuid::Uuid16(HUM_CHAR_UUID16), read, 2u16),
        4 => (CharacteristicUuid::Uuid128(SOIL_TEMPERATURE_CHAR_UUID), read, 2u16),
        5 => (CharacteristicUuid::Uuid128(SOIL_HUMIDITY_CHAR_UUID), read, 2u16),
        6 => (CharacteristicUuid::Uuid128(SETUP_CONFIRM_CHAR_UUID), write, 8u16),
        _ => (CharacteristicUuid::Uuid128(MOTOR_COMMAND_CHAR_UUID), write, 30u16),
    };
    GattCharacteristic {
        uuid,
        access,
        value_len,
        encryption_key_size: CHARACTERISTIC_KEY_SIZE,
        is_variable: false,
    }
}

/// Handles of the registered characteristics.
#[derive(Clone, Copy, Debug, PartialEq, Eq, Structural)]
pub struct GattHandles {
    pub probe_uuid: u16,
    pub air_temp: u16,
    pub air_pressure: u16,
    pub air_humidity: u16,
    pub soil_temp: u16,
    pub soil_humidity: u16,
    pub setup_confirm: u16,
    pub motor_command: u16,
}

impl GattHandles {
    /// The handle that the central writes to confirm the set-up: the registered handle is that of
    /// the declaration, and the value comes right after it. After the last handle comes zero, which
    /// no attribute has.
    pub open spec fn setup_confirm_value(self) -> int {
        (self.setup_confirm + 1) % 0x1_0000
    }

    /// The handle that the central writes a motor command to, likewise.
    pub open spec fn motor_command_value(self) -> int {
        (self.motor_command + 1) % 0x1_0000
    }

    /// The handle that the central writes to confirm the set-up.
    pub fn setup_confirm_value_handle(&self) -> (r: u16)
        ensures
            r == self.setup_confirm_value(),
    {
        self.setup_confirm.wrapping_add(1)
    }

    /// The handle that the central writes a motor command to.
    pub fn motor_command_value_handle(&self) -> (r: u16)
        ensures
            r == self.motor_command_value(),
    {
        self.motor_command.wrapping_add(1)
    }
}

/// The handles that were given to the characteristics, in the order of their registration.
pub open spec fn handles_of(given: Seq<u16>) -> GattHandles {
    GattHandles {
        probe_uuid: given[0],
        air_temp: given[1],
        air_pressure: given[2],
        air_humidity: given[3],
        soil_temp: given[4],
        soil_humidity: given[5],
        setup_confirm: given[6],
        motor_command: given[7],
    }
}

/// Where the registration stands, and what to do next.
#[derive(Clone, Copy, Debug, PartialEq, Eq, Structural)]
pub enum GattSetupStep {
    /// Give the command that adds the service.
    AddService,
    /// Read a packet, within the time that a command may take.
    AwaitService,
    /// Give the command that adds the next characteristic.
    AddCharacteristic,
    /// Read a packet, within the time that a command may take.
    AwaitCharacteristic,
    Ready,
    Failed,
}

/// Registration of the service and its characteristics, one command after the other.
#[derive(Debug, PartialEq, Eq)]
pub struct GattSetup {
    pub step: GattSetupStep,
    pub service_handle: u16,
    pub characteristic_handles: Vec<u16>,
}

impl GattSetup {
    pub open spec fn wf(self) -> bool {
        let count = self.characteristic_handles@.len();
        &&& count <= CHARACTERISTIC_COUNT
        &&& self.step is Ready <==> count == CHARACTERISTIC_COUNT
    }

    /// Nothing is registered yet.
    pub fn start() -> (r: GattSetup)
        ensures
            r.wf(),
            r.step is AddService,
            r.service_handle == 0,
            r.characteristic_handles@ == Seq::<u16>::empty(),
    {
        GattSetup {
            step: GattSetupStep::AddService,
            service_handle: 0,
            characteristic_handles: Vec::new(),
        }
    }

    /// UUID of the service, and the attribute records it asks for.
    pub fn service(&self) -> (r: (u16, u8))
        ensures
            r == (ENVIRONMENTAL_SENSING_SERVICE_UUID16, SERVICE_ATTRIBUTE_RECORDS),
    {
        (ENVIRONMENTAL_SENSING_SERVICE_UUID16, SERVICE_ATTRIBUTE_RECORDS)
    }

    /// The characteristic that is to be added next.
    pub fn next_characteristic(&self) -> (r: Option<GattCharacteristic>)
        requires
            self.wf(),
        ensures
            self.step is AddCharacteristic ==> r == Some(
                characteristic(self.characteristic_handles@.len() as int),
            ),
            self.step !is AddCharacteristic ==> r is None,
    {
        match self.step {
            GattSetupStep::AddCharacteristic => Some(
                gatt_characteristic(self.characteristic_handles.len()),
            ),
            _ => None,
        }
    }

    /// The command was given.
    pub fn sent(&mut self)
        requires
            old(self).wf(),
        ensures
            final(self).wf(),
            final(self).step == old(self).step_after_sending(),
            final(self).step == match old(self).step {
                GattSetupStep::AddService => GattSetupStep::AwaitService,
                GattSetupStep::AddCharacteristic => GattSetupStep::AwaitCharacteristic,
                other => other,
            },
            final(self).service_handle == old(self).service_handle,
            final(self).characteristic_handles@ == old(self).characteristic_handles@,
    {
        match self.step {
            GattSetupStep::AddService => {
                self.step = GattSetupStep::AwaitService;
            },
            GattSetupStep::AddCharacteristic => {
                self.step = GattSetupStep::AwaitCharacteristic;
            },
            _ => {},
        }
    }

    /// The step after `read`.
    pub open spec fn step_after(self, read: HciRead) -> GattSetupStep {
        match self.step {
            GattSetupStep::AwaitService => match crate::hci::gatt_add_service_wait(read) {
                CommandWait::KeepReading => self.step,
                CommandWait::Finished(Some(_)) => GattSetupStep::AddCharacteristic,
                CommandWait::Finished(None) => GattSetupStep::Failed,
            },
            GattSetupStep::AwaitCharacteristic => match crate::hci::gatt_add_characteristic_wait(
                read,
            ) {
                CommandWait::KeepReading => self.step,
                CommandWait::Finished(Some(_)) => if self.characteristic_handles@.len() + 1
                    == CHARACTERISTIC_COUNT {
                    GattSetupStep::Ready
                } else {
                    GattSetupStep::AddCharacteristic
                },
                CommandWait::Finished(None) => GattSetupStep::Failed,
            },
            _ => self.step,
        }
    }

    /// The handle of the service after `read`.
    pub open spec fn service_after(self, read: HciRead) -> u16 {
        match (self.step, crate::hci::gatt_add_service_wait(read)) {
            (GattSetupStep::AwaitService, CommandWait::Finished(Some(handle))) => handle,
            _ => self.service_handle,
        }
    }

    /// The handles of the characteristics after `read`.
    pub open spec fn given_after(self, read: HciRead) -> Seq<u16> {
        match (self.step, crate::hci::gatt_add_characteristic_wait(read)) {
            (
                GattSetupStep::AwaitCharacteristic,
                CommandWait::Finished(Some(handle)),
            ) => self.characteristic_handles@.push(handle),
            _ => self.characteristic_handles@,
        }
    }

    /// The step after the command was given.
    pub open spec fn step_after_sending(self) -> GattSetupStep {
        match self.step {
            GattSetupStep::AddService => GattSetupStep::AwaitService,
            GattSetupStep::AddCharacteristic => GattSetupStep::AwaitCharacteristic,
            other => other,
        }
    }

    /// A packet, or none, came.
    pub fn received(&mut self, read: &HciRead)
        requires
            old(self).wf(),
        ensures
            final(self).wf(),
            final(self).step == old(self).step_after(*read),
            final(self).service_handle == old(self).service_after(*read),
            final(self).characteristic_handles@ == old(self).given_after(*read),
            final(self).service_handle == match (
                old(self).step,
                crate::hci::gatt_add_service_wait(*read),
            ) {
                (GattSetupStep::AwaitService, CommandWait::Finished(Some(handle))) => handle,
                _ => old(self).service_handle,
            },
            final(self).characteristic_handles@ == match (
                old(self).step,
                crate::hci::gatt_add_characteristic_wait(*read),
            ) {
                (
                    GattSetupStep::AwaitCharacteristic,
                    CommandWait::Finished(Some(handle)),
                ) => old(self).characteristic_handles@.push(handle),
                _ => old(self).characteristic_handles@,
            },
    {
        match self.step {
            GattSetupStep::AwaitService => match wait_for_gatt_add_service_complete(read) {
                CommandWait::KeepReading => {},
                CommandWait::Finished(Some(handle)) => {
                    self.service_handle = handle;
                    self.step = GattSetupStep::AddCharacteristic;
                },
                CommandWait::Finished(None) => {
                    self.step = GattSetupStep::Failed;
                },
            },
            GattSetupStep::AwaitCharacteristic => {
                match wait_for_gatt_add_characteristic_complete(read) {
                    CommandWait::KeepReading => {},
                    CommandWait::Finished(Some(handle)) => {
                        self.characteristic_handles.push(handle);
                        self.step = if self.characteristic_handles.len() == CHARACTERISTIC_COUNT {
                            GattSetupStep::Ready
                        } else {
                            GattSetupStep::AddCharacteristic
                        };
                    },
                    CommandWait::Finished(None) => {
                        self.step = GattSetupStep::Failed;
                    },
                }
            },
            _ => {},
        }
    }

    /// The handles, once all characteristics are registered.
    pub fn handles(&self) -> (r: Option<GattHandles>)
        requires
            self.wf(),
        ensures
            self.step is Ready ==> r == Some(handles_of(self.characteristic_handles@)),
            self.step !is Ready ==> r is None,
            self.step is Ready ==> r == Some(
                GattHandles {
                    probe_uuid: self.characteristic_handles@[0],
                    air_temp: self.characteristic_handles@[1],
                    air_pressure: self.characteristic_handles@[2],
                    air_humidity: self.characteristic_handles@[3],
                    soil_temp: self.characteristic_handles@[4],
                    soil_humidity: self.characteristic_handles@[5],
                    setup_confirm: self.characteristic_handles@[6],
                    motor_command: self.characteristic_handles@[7],
                },
            ),
    {
        match self.step {
            GattSetupStep::Ready => Some(
                GattHandles {
                    probe_uuid: self.characteristic_handles[0],
                    air_temp: self.characteristic_handles[1],
                    air_pressure: self.characteristic_handles[2],
                    air_humidity: self.characteristic_handles[3],
                    soil_temp: self.characteristic_handles[4],
                    soil_humidity: self.characteristic_handles[5],
                    setup_confirm: self.characteristic_handles[6],
                    motor_command: self.characteristic_handles[7],
                },
            ),
            _ => None,
        }
    }
}

/// A value to be written into a characteristic.
#[derive(Debug, PartialEq, Eq)]
pub struct CharacteristicUpdate {
    pub service_handle: u16,
    pub characteristic_handle: u16,
    /// Where in the characteristic the value starts.
    pub offset: usize,
    pub value: Vec<u8>,
}

/// The handle that the `index`-th update writes.
pub open spec fn update_handle(index: int, handles: GattHandles) -> u16 {
    if index == 0 {
        handles.probe_uuid
    } else if index == 1 {
        handles.air_temp
    } else if index == 2 {
        handles.air_pressure
    } else if index == 3 {
        handles.air_humidity
    } else if index == 4 {
        handles.soil_temp
    } else {
        handles.soil_humidity
    }
}

/// The value of the `index`-th update, most significant byte first.
pub open spec fn update_value(index: int, snapshot: SensorSnapshot, probe_uuid: Seq<u8>) -> Seq<
    u8,
> {
    if index == 0 {
        probe_uuid
    } else if index == 1 {
        crate::bytes::be_bytes(
            crate::bytes::unsigned(snapshot.air_temperature_centi as int, 0x8000),
            2,
        )
    } else if index == 2 {
        crate::bytes::be_bytes(snapshot.air_pressure_pa as int, 4)
    } else if index == 3 {
        crate::bytes::be_bytes(snapshot.air_humidity_centi_pct as int, 2)
    } else if index == 4 {
        crate::bytes::be_bytes(
            crate::bytes::unsigned(snapshot.soil_temperature_centi as int, 0x8000),
            2,
        )
    } else {
        crate::bytes::be_bytes(snapshot.soil_humidity_centi_pct as int, 2)
    }
}

/// Where the publication stands, and what to do next.
#[derive(Clone, Copy, Debug, PartialEq, Eq, Structural)]
pub enum UpdateStep {
    /// Give the command of the update at this place.
    Send(usize),
    /// Read a packet, within the time that a command may take.
    AwaitCompletion(usize),
    Finished(bool),
}

impl UpdateStep {
    /// The first step: the update of the UUID.
    pub open spec fn first() -> UpdateStep {
        UpdateStep::Send(0)
    }

    pub open spec fn wf(self) -> bool {
        match self {
            UpdateStep::Send(index) => index < UPDATE_COUNT,
            UpdateStep::AwaitCompletion(index) => index < UPDATE_COUNT,
            UpdateStep::Finished(_) => true,
        }
    }

    /// The step after the command was given, or could not be.
    pub open spec fn after_sent(self, ok: bool) -> UpdateStep {
        match self {
            UpdateStep::Send(index) => if ok {
                UpdateStep::AwaitCompletion(index)
            } else {
                UpdateStep::Finished(false)
            },
            _ => self,
        }
    }

    /// The step after the command ended.
    pub open spec fn after_completion(self, ok: bool) -> UpdateStep {
        match self {
            UpdateStep::AwaitCompletion(index) => if !ok {
                UpdateStep::Finished(false)
            } else if index + 1 == UPDATE_COUNT {
                UpdateStep::Finished(true)
            } else {
                UpdateStep::Send((index + 1) as usize)
            },
            _ => self,
        }
    }

    /// The step after `read`.
    pub open spec fn after_read(self, read: HciRead) -> UpdateStep {
        match crate::hci::gatt_update_wait(read) {
            CommandWait::KeepReading => self,
            CommandWait::Finished(ok) => self.after_completion(ok),
        }
    }
}

/// Publication of a snapshot, one value after the other. The first failure ends it.
#[derive(Debug, PartialEq, Eq)]
pub struct EnvironmentalUpdate {
    pub service_handle: u16,
    pub handles: GattHandles,
    pub snapshot: SensorSnapshot,
    pub probe_uuid: Vec<u8>,
    pub step: UpdateStep,
}

/// Starts to publish the probe's UUID and a snapshot.
pub fn update_ble_environmental_values(
    service_handle: u16,
    handles: &GattHandles,
    snapshot: &SensorSnapshot,
    probe_uuid: &[u8],
) -> (r: EnvironmentalUpdate)
    ensures
        r.step == UpdateStep::first(),
        r.step == UpdateStep::Send(0),
        r.service_handle == service_handle,
        r.handles == *handles,
        r.snapshot == *snapshot,
        r.probe_uuid@ == probe_uuid@,
{
    EnvironmentalUpdate {
        service_handle,
        handles: *handles,
        snapshot: *snapshot,
        probe_uuid: copy_bytes(probe_uuid),
        step: UpdateStep::Send(0),
    }
}

impl CharacteristicUpdate {
    /// This update writes `value` from its start on into a characteristic of a service.
    pub open spec fn writes(self, service_handle: u16, handle: u16, value: Seq<u8>) -> bool {
        &&& self.service_handle == service_handle
        &&& self.characteristic_handle == handle
        &&& self.offset == 0
        &&& self.value@ == value
    }
}

impl EnvironmentalUpdate {
    /// `update` is the one whose command is to be given now.
    pub open spec fn is_due(self, update: CharacteristicUpdate) -> bool {
        self.step matches UpdateStep::Send(index) && update.writes(
            self.service_handle,
            update_handle(index as int, self.handles),
            update_value(index as int, self.snapshot, self.probe_uuid@),
        )
    }

    /// The update whose command is to be given now.
    pub fn update(&self) -> (r: Option<CharacteristicUpdate>)
        requires
            self.step.wf(),
        ensures
            r is Some <==> self.step is Send,
            r matches Some(update) ==> self.is_due(update),
            match (self.step, r) {
                (UpdateStep::Send(index), Some(update)) => {
                    &&& update.service_handle == self.service_handle
                    &&& update.characteristic_handle == update_handle(index as int, self.handles)
                    &&& update.offset == 0
                    &&& update.value@ == update_value(
                        index as int,
                        self.snapshot,
                        self.probe_uuid@,
                    )
                },
                (UpdateStep::Send(_), None) => false,
                (_, found) => found is None,
            },
    {
        let index = match self.step {
            UpdateStep::Send(index) => index,
            _ => return None,
        };
        let (characteristic_handle, value) = match index {
            0 => (self.handles.probe_uuid, copy_bytes(self.probe_uuid.as_slice())),
            1 => (self.handles.air_temp, i16_to_be(self.snapshot.air_temperature_centi)),
            2 => (self.handles.air_pressure, u32_to_be(self.snapshot.air_pressure_pa)),
            3 => (self.handles.air_humidity, u16_to_be(self.snapshot.air_humidity_centi_pct)),
            4 => (self.handles.soil_temp, i16_to_be(self.snapshot.soil_temperature_centi)),
            _ => (self.handles.soil_humidity, u16_to_be(self.snapshot.soil_humidity_centi_pct)),
        };
        Some(
            CharacteristicUpdate {
                service_handle: self.service_handle,
                characteristic_handle,
                offset: 0,
                value,
            },
        )
    }

    /// The command was given, or could not be.
    pub fn sent(&mut self, ok: bool)
        requires
            old(self).step.wf(),
        ensures
            final(self).step.wf(),
            *final(self) == (EnvironmentalUpdate {
                step: old(self).step.after_sent(ok),
                ..*old(self)
            }),
    {
        match self.step {
            UpdateStep::Send(index) => {
                self.step = if ok {
                    UpdateStep::AwaitCompletion(index)
                } else {
                    UpdateStep::Finished(false)
                };
            },
            _ => {},
        }
    }

    /// A packet, or none, came.
    pub fn received(&mut self, read: &HciRead)
        requires
            old(self).step.wf(),
        ensures
            final(self).step.wf(),
            *final(self) == (EnvironmentalUpdate {
                step: old(self).step.after_read(*read),
                ..*old(self)
            }),
    {
        match (self.step, wait_for_gatt_update_complete(read)) {
            (UpdateStep::AwaitCompletion(index), CommandWait::Finished(ok)) => {
                self.step = if !ok {
                    UpdateStep::Finished(false)
                } else if index + 1 == UPDATE_COUNT {
                    UpdateStep::Finished(true)
                } else {
                    UpdateStep::Send(index + 1)
                };
            },
            _ => {},
        }
    }
}

/// The step after some rounds. A round is whether the command could be given, and whether it then
/// ended well.
pub open spec fn after_rounds(rounds: Seq<(bool, bool)>) -> UpdateStep
    decreases rounds.len(),
{
    if rounds.len() == 0 {
        UpdateStep::first()
    } else {
        let (sent, done) = rounds.last();
        after_rounds(rounds.drop_last()).after_sent(sent).after_completion(done)
    }
}

pub open spec fn all_well(rounds: Seq<(bool, bool)>) -> bool {
    forall|i: int| 0 <= i < rounds.len() ==> (#[trigger] rounds[i]).0 && rounds[i].1
}

/// Publication succeeds if and only if each of the six commands could be given and ended well. It
/// gives one command per value, in order, and none after a failure.
pub proof fn law_publication_succeeds_iff_every_update_does(rounds: Seq<(bool, bool)>)
    requires
        rounds.len() <= UPDATE_COUNT,
    ensures
        all_well(rounds) && rounds.len() < UPDATE_COUNT ==> after_rounds(rounds)
            == UpdateStep::Send(rounds.len() as usize),
        all_well(rounds) && rounds.len() == UPDATE_COUNT ==> after_rounds(rounds)
            == UpdateStep::Finished(true),
        !all_well(rounds) ==> after_rounds(rounds) == UpdateStep::Finished(false),
    decreases rounds.len(),
{
    if rounds.len() > 0 {
        let front = rounds.drop_last();
        law_publication_succeeds_iff_every_update_does(front);
        if all_well(front) && rounds.last().0 && rounds.last().1 {
            assert forall|i: int| 0 <= i < rounds.len() implies (#[trigger] rounds[i]).0
                && rounds[i].1 by {
                if i < front.len() {
                    assert(front[i] == rounds[i]);
                }
            }
        } else if all_well(rounds) {
            assert forall|i: int| 0 <= i < front.len() implies (#[trigger] front[i]).0
                && front[i].1 by {
                assert(front[i] == rounds[i]);
            }
            assert(rounds[rounds.len() - 1].0);
        }
    }
}

/// Each published value has the length that its characteristic was registered with.
pub proof fn law_values_fit_their_characteristics(
    index: int,
    snapshot: SensorSnapshot,
    probe_uuid: Seq<u8>,
)
    requires
        0 <= index < UPDATE_COUNT,
        probe_uuid.len() == PROBE_UUID_LEN,
    ensures
        update_value(index, snapshot, probe_uuid).len() == characteristic(index).value_len,
{
    reveal_with_fuel(crate::bytes::le_bytes, 5);
}

/// The writable characteristics take exactly the set-up confirmation and a motor command.
pub proof fn law_writable_characteristics_fit_their_messages()
    ensures
        characteristic(6).value_len == crate::setup::SETUP_COMPLETE_MAGIC@.len(),
        characteristic(7).value_len == crate::motor_command::MOTOR_COMMAND_PAYLOAD_LEN,
{
}

/// The 128-bit UUIDs are published as 1234000x-0000-1000-8000-00805f9b34fb.
pub open spec fn published_uuid(x: u8) -> Seq<u8> {
    seq![
        0x12u8, 0x34, 0x00, x, 0x00, 0x00, 0x10, 0x00, 0x80, 0x00, 0x00, 0x80, 0x5f, 0x9b, 0x34, 0xfb,
    ]
}

/// Most significant byte first, the 128-bit UUIDs are those of one base, numbered 2 to 6.
pub proof fn law_uuids_share_one_base()
    ensures
        PROBE_UUID_CHAR_UUID@.reverse() == published_uuid(2),
        SOIL_TEMPERATURE_CHAR_UUID@.reverse() == published_uuid(3),
        SOIL_HUMIDITY_CHAR_UUID@.reverse() == published_uuid(4),
        SETUP_CONFIRM_CHAR_UUID@.reverse() == published_uuid(5),
        MOTOR_COMMAND_CHAR_UUID@.reverse() == published_uuid(6),
{
    assert(PROBE_UUID_CHAR_UUID@.reverse() =~= published_uuid(2));
    assert(SOIL_TEMPERATURE_CHAR_UUID@.reverse() =~= published_uuid(3));
    assert(SOIL_HUMIDITY_CHAR_UUID@.reverse() =~= published_uuid(4));
    assert(SETUP_CONFIRM_CHAR_UUID@.reverse() =~= published_uuid(5));
    assert(MOTOR_COMMAND_CHAR_UUID@.reverse() =~= published_uuid(6));
}

/// The service has eight characteristics, each with its UUID and length. The values can be read, the
/// set-up confirmation and the motor command can be written with permission.
pub proof fn law_characteristics_are_those_of_the_service()
    ensures
        ({
            let uuid = CharacteristicUuid::Uuid128(PROBE_UUID_CHAR_UUID);
            let soil_temperature = CharacteristicUuid::Uuid128(SOIL_TEMPERATURE_CHAR_UUID);
            let soil_humidity = CharacteristicUuid::Uuid128(SOIL_HUMIDITY_CHAR_UUID);
            let setup = CharacteristicUuid::Uuid128(SETUP_CONFIRM_CHAR_UUID);
            let motor = CharacteristicUuid::Uuid128(MOTOR_COMMAND_CHAR_UUID);
            &&& characteristic(0).uuid == uuid && characteristic(0).value_len == 36
            &&& characteristic(1).uuid == CharacteristicUuid::Uuid16(0x2a6e)
                && characteristic(1).value_len == 2
            &&& characteristic(2).uuid == CharacteristicUuid::Uuid16(0x2a6d)
                && characteristic(2).value_len == 4
            &&& characteristic(3).uuid == CharacteristicUuid::Uuid16(0x2a6f)
                && characteristic(3).value_len == 2
            &&& characteristic(4).uuid == soil_temperature && characteristic(4).value_len == 2
            &&& characteristic(5).uuid == soil_humidity && characteristic(5).value_len == 2
            &&& characteristic(6).uuid == setup && characteristic(6).value_len == 8
            &&& characteristic(7).uuid == motor && characteristic(7).value_len == 30
        }),
        forall|index: int|
            0 <= index < 8 ==> {
                let added = #[trigger] characteristic(index);
                &&& added.access is Read <==> index < 6
                &&& added.encryption_key_size == 7
                &&& !added.is_variable
            },
        ENVIRONMENTAL_SENSING_SERVICE_UUID16 == 0x181a,
{
}

/// Each value is published to the characteristic that was registered in its place, and what the
/// central writes is told apart by the handles that were given last.
pub proof fn law_values_go_to_their_characteristics(given: Seq<u16>, index: int)
    requires
        given.len() == 8,
        0 <= index < 6,
    ensures
        update_handle(index, handles_of(given)) == given[index],
        handles_of(given).setup_confirm == given[6],
        handles_of(given).motor_command == given[7],
{
}

/// A value is written at the handle right after that of its declaration, and the one after the last
/// handle is zero.
pub proof fn law_value_comes_after_its_declaration(handles: GattHandles)
    ensures
        handles.setup_confirm < 0xffff ==> handles.setup_confirm_value() == handles.setup_confirm
            + 1,
        handles.setup_confirm == 0xffff ==> handles.setup_confirm_value() == 0,
        handles.motor_command < 0xffff ==> handles.motor_command_value() == handles.motor_command
            + 1,
        handles.motor_command == 0xffff ==> handles.motor_command_value() == 0,
{
}

/// A temperature that two bytes stand for, high byte first, in two's complement.
pub open spec fn is_published_as(x: int, value: Seq<u8>) -> bool {
    &&& value.len() == 2
    &&& value[0] * 256 + value[1] == if x < 0 {
        x + 65_536
    } else {
        x
    }
}

/// The central reads back what was measured: the UUID as it is, and every number high byte first,
/// temperatures in two's complement.
pub proof fn law_published_values_are_read_back(snapshot: SensorSnapshot, probe_uuid: Seq<u8>)
    ensures
        update_value(0, snapshot, probe_uuid) == probe_uuid,
        is_published_as(
            snapshot.air_temperature_centi as int,
            update_value(1, snapshot, probe_uuid),
        ),
        ({
            let value = update_value(2, snapshot, probe_uuid);
            &&& value.len() == 4
            &&& value[0] * 0x100_0000 + value[1] * 0x1_0000 + value[2] * 0x100 + value[3]
                == snapshot.air_pressure_pa
        }),
        is_published_as(
            snapshot.air_humidity_centi_pct as int,
            update_value(3, snapshot, probe_uuid),
        ),
        is_published_as(
            snapshot.soil_temperature_centi as int,
            update_value(4, snapshot, probe_uuid),
        ),
        is_published_as(
            snapshot.soil_humidity_centi_pct as int,
            update_value(5, snapshot, probe_uuid),
        ),
{
    let air = crate::bytes::unsigned(snapshot.air_temperature_centi as int, 0x8000);
    let soil = crate::bytes::unsigned(snapshot.soil_temperature_centi as int, 0x8000);
    crate::bytes::law_bytes_are_digits(air);
    crate::bytes::law_bytes_are_digits(soil);
    crate::bytes::law_bytes_are_digits(snapshot.air_pressure_pa as int);
    crate::bytes::law_bytes_are_digits(snapshot.air_humidity_centi_pct as int);
    crate::bytes::law_bytes_are_digits(snapshot.soil_humidity_centi_pct as int);
}

/// Registration goes on to the next characteristic with each one that was added, is ready with the
/// eighth, and fails with the first command that fails or does not end in time. Any other packet, and
/// any packet that is not awaited, leaves it where it is.
pub proof fn law_registration_goes_on_with_each_success(
    setup: GattSetup,
    read: HciRead,
    handle: u16,
)
    ensures
        setup.step is AwaitService ==> {
            let added = HciRead::Event(
                crate::hci::HciEvent::CommandComplete(
                    crate::hci::CommandReturn::GattAddService {
                        success: true,
                        service_handle: handle,
                    },
                ),
            );
            let refused = HciRead::Event(
                crate::hci::HciEvent::CommandComplete(
                    crate::hci::CommandReturn::GattAddService {
                        success: false,
                        service_handle: handle,
                    },
                ),
            );
            &&& setup.step_after(added) is AddCharacteristic
            &&& setup.step_after(refused) is Failed
            &&& setup.step_after(HciRead::TimedOut) is Failed
            &&& read !is TimedOut && !(read.command_return() matches Some(
                crate::hci::CommandReturn::GattAddService { .. },
            )) ==> setup.step_after(read) is AwaitService
        },
        setup.step is AwaitCharacteristic ==> {
            let added = HciRead::Event(
                crate::hci::HciEvent::CommandComplete(
                    crate::hci::CommandReturn::GattAddCharacteristic {
                        success: true,
                        characteristic_handle: handle,
                    },
                ),
            );
            let refused = HciRead::Event(
                crate::hci::HciEvent::CommandComplete(
                    crate::hci::CommandReturn::GattAddCharacteristic {
                        success: false,
                        characteristic_handle: handle,
                    },
                ),
            );
            &&& setup.characteristic_handles@.len() == 7 ==> setup.step_after(added) is Ready
            &&& setup.characteristic_handles@.len() != 7 ==> setup.step_after(
                added,
            ) is AddCharacteristic
            &&& setup.step_after(refused) is Failed
            &&& setup.step_after(HciRead::TimedOut) is Failed
            &&& read !is TimedOut && !(read.command_return() matches Some(
                crate::hci::CommandReturn::GattAddCharacteristic { .. },
            )) ==> setup.step_after(read) is AwaitCharacteristic
        },
        setup.step !is AwaitService && setup.step !is AwaitCharacteristic ==> setup.step_after(read)
            == setup.step,
{
}

/// A publication goes on to the next value once the packet that reports the update says so, ends well
/// with the sixth, and ends as failed with an update that could not be given, failed or did not end
/// in time. Any other packet leaves it where it is.
pub proof fn law_publication_goes_on_with_each_update(index: usize, read: HciRead)
    requires
        index < 6,
    ensures
        ({
            let awaiting = UpdateStep::AwaitCompletion(index);
            let done = HciRead::Event(
                crate::hci::HciEvent::CommandComplete(
                    crate::hci::CommandReturn::GattUpdateCharacteristicValue { success: true },
                ),
            );
            let refused = HciRead::Event(
                crate::hci::HciEvent::CommandComplete(
                    crate::hci::CommandReturn::GattUpdateCharacteristicValue { success: false },
                ),
            );
            &&& UpdateStep::Send(index).after_sent(true) == awaiting
            &&& UpdateStep::Send(index).after_sent(false) == UpdateStep::Finished(false)
            &&& index < 5 ==> awaiting.after_read(done) == UpdateStep::Send((index + 1) as usize)
            &&& index == 5 ==> awaiting.after_read(done) == UpdateStep::Finished(true)
            &&& awaiting.after_read(refused) == UpdateStep::Finished(false)
            &&& awaiting.after_read(HciRead::TimedOut) == UpdateStep::Finished(false)
            &&& read !is TimedOut && !(read.command_return() matches Some(
                crate::hci::CommandReturn::GattUpdateCharacteristicValue { .. },
            )) ==> awaiting.after_read(read) == awaiting
            &&& UpdateStep::Send(index).after_read(read) == UpdateStep::Send(index)
            &&& awaiting.after_sent(true) == awaiting
        }),
        forall|step: UpdateStep, ok: bool|
            step is Finished ==> #[trigger] step.after_sent(ok) == step,
        forall|step: UpdateStep| step is Finished ==> #[trigger] step.after_read(read) == step,
{
}

/// The handle that the radio gives to the service is kept, and those of the characteristics are kept
/// in the order in which they come. No other packet, and none that is not awaited, changes them.
pub proof fn law_registration_keeps_the_handles(setup: GattSetup, read: HciRead, handle: u16)
    ensures
        ({
            let service = HciRead::Event(
                crate::hci::HciEvent::CommandComplete(
                    crate::hci::CommandReturn::GattAddService {
                        success: true,
                        service_handle: handle,
                    },
                ),
            );
            let added = HciRead::Event(
                crate::hci::HciEvent::CommandComplete(
                    crate::hci::CommandReturn::GattAddCharacteristic {
                        success: true,
                        characteristic_handle: handle,
                    },
                ),
            );
            &&& setup.step is AwaitService ==> setup.service_after(service) == handle
            &&& setup.step is AwaitCharacteristic ==> setup.given_after(added)
                == setup.characteristic_handles@.push(handle)
            &&& setup.step is AwaitService && !(read.command_return() matches Some(
                crate::hci::CommandReturn::GattAddService { success: true, .. },
            )) ==> setup.service_after(read) == setup.service_handle
            &&& setup.step is AwaitCharacteristic && !(read.command_return() matches Some(
                crate::hci::CommandReturn::GattAddCharacteristic { success: true, .. },
            )) ==> setup.given_after(read) == setup.characteristic_handles@
            &&& setup.step !is AwaitService ==> setup.service_after(read) == setup.service_handle
            &&& setup.step !is AwaitCharacteristic ==> setup.given_after(read)
                == setup.characteristic_handles@
        }),
        setup.step is AddService ==> setup.step_after_sending() is AwaitService,
        setup.step is AddCharacteristic ==> setup.step_after_sending() is AwaitCharacteristic,
        setup.step !is AddService && setup.step !is AddCharacteristic ==> setup.step_after_sending()
            == setup.step,
{
}

/// What is published at a place is the value of that place, to the characteristic that was registered
/// there, in the service that it belongs to, from its first byte on.
pub proof fn law_due_update_publishes_its_value(
    publication: EnvironmentalUpdate,
    update: CharacteristicUpdate,
    given: Seq<u16>,
    index: usize,
)
    requires
        given.len() == 8,
        index < 6,
        publication.handles == handles_of(given),
        publication.step == UpdateStep::Send(index),
        publication.is_due(update),
    ensures
        update.service_handle == publication.service_handle,
        update.characteristic_handle == given[index as int],
        update.offset == 0,
        update.value@ == update_value(
            index as int,
            publication.snapshot,
            publication.probe_uuid@,
        ),
{
}

} // verus!
