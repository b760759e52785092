//! What the radio reports, and the wait for the end of a command given to it.
use vstd::prelude::*;

verus! {

/// What a finished command returned. `success` tells whether its status was success.
#[derive(Clone, Copy, Debug, PartialEq, Eq, Structural)]
pub enum CommandReturn {
    GattAddService { success: bool, service_handle: u16 },
    GattAddCharacteristic { success: bool, characteristic_handle: u16 },
    GattUpdateCharacteristicValue { success: bool },
    GapSetDiscoverable { success: bool },
    GapUpdateAdvertisingData { success: bool },
    GapSetNonDiscoverable { success: bool },
    Other,
}

/// A request of the central to write an attribute.
#[derive(Debug, PartialEq, Eq)]
pub struct WriteRequest {
    pub conn_handle: u16,
    pub attribute_handle: u16,
    pub value: Vec<u8>,
}

/// Answer to a request to write: the request, and whether it is permitted.
#[derive(Debug, PartialEq, Eq)]
pub struct WriteReply {
    pub request: WriteRequest,
    pub permitted: bool,
}

/// An event of the radio.
#[derive(Debug, PartialEq, Eq)]
pub enum HciEvent {
    CommandComplete(CommandReturn),
    /// The radio reports that an interrupt was served late.
    IsrDelay,
    LeConnectionComplete { success: bool, conn_handle: u16 },
    DisconnectionComplete,
    AttWritePermitRequest(WriteRequest),
    Other,
}

/// Outcome of waiting for a packet.
#[derive(Debug, PartialEq, Eq)]
pub enum HciRead {
    Event(HciEvent),
    Failed,
    TimedOut,
}

impl HciRead {
    /// What the command that this packet reports returned.
    pub open spec fn command_return(self) -> Option<CommandReturn> {
        match self {
            HciRead::Event(HciEvent::CommandComplete(returned)) => Some(returned),
            _ => None,
        }
    }
}

/// A wait for the end of a command that succeeds with `T`.
#[derive(Debug, PartialEq, Eq)]
pub enum CommandWait<T> {
    KeepReading,
    Finished(T),
}

/// The wait for the end of adding a service, after `read`.
pub open spec fn gatt_add_service_wait(read: HciRead) -> CommandWait<Option<u16>> {
    match (read, read.command_return()) {
        (HciRead::TimedOut, _) => CommandWait::Finished(None),
        (_, Some(CommandReturn::GattAddService { success, service_handle })) => if success {
            CommandWait::Finished(Some(service_handle))
        } else {
            CommandWait::Finished(None)
        },
        _ => CommandWait::KeepReading,
    }
}

/// One packet, or none, came while the end of adding a service was awaited.
pub fn wait_for_gatt_add_service_complete(read: &HciRead) -> (r: CommandWait<Option<u16>>)
    ensures
        r == gatt_add_service_wait(*read),
{
    match read {
        HciRead::TimedOut => CommandWait::Finished(None),
        HciRead::Event(
            HciEvent::CommandComplete(CommandReturn::GattAddService { success, service_handle }),
        ) => if *success {
            CommandWait::Finished(Some(*service_handle))
        } else {
            CommandWait::Finished(None)
        },
        _ => CommandWait::KeepReading,
    }
}

/// The wait for the end of adding a characteristic, after `read`.
pub open spec fn gatt_add_characteristic_wait(read: HciRead) -> CommandWait<Option<u16>> {
    match (read, read.command_return()) {
        (HciRead::TimedOut, _) => CommandWait::Finished(None),
        (_, Some(CommandReturn::GattAddCharacteristic { success, characteristic_handle })) => if success {
            CommandWait::Finished(Some(characteristic_handle))
        } else {
            CommandWait::Finished(None)
        },
        _ => CommandWait::KeepReading,
    }
}

/// One packet, or none, came while the end of adding a characteristic was awaited.
pub fn wait_for_gatt_add_characteristic_complete(read: &HciRead) -> (r: CommandWait<Option<u16>>)
    ensures
        r == gatt_add_characteristic_wait(*read),
{
    match read {
        HciRead::TimedOut => CommandWait::Finished(None),
        HciRead::Event(
            HciEvent::CommandComplete(
                CommandReturn::GattAddCharacteristic { success, characteristic_handle },
            ),
        ) => if *success {
            CommandWait::Finished(Some(*characteristic_handle))
        } else {
            CommandWait::Finished(None)
        },
        _ => CommandWait::KeepReading,
    }
}

/// The wait for the end of an update of a characteristic value, after `read`.
pub open spec fn gatt_update_wait(read: HciRead) -> CommandWait<bool> {
    match (read, read.command_return()) {
        (HciRead::TimedOut, _) => CommandWait::Finished(false),
        (_, Some(CommandReturn::GattUpdateCharacteristicValue { success })) => {
            CommandWait::Finished(success)
        },
        _ => CommandWait::KeepReading,
    }
}

/// One packet, or none, came while the end of an update of a characteristic value was awaited.
pub fn wait_for_gatt_update_complete(read: &HciRead) -> (r: CommandWait<bool>)
    ensures
        r == gatt_update_wait(*read),
{
    match read {
        HciRead::TimedOut => CommandWait::Finished(false),
        HciRead::Event(
            HciEvent::CommandComplete(CommandReturn::GattUpdateCharacteristicValue { success }),
        ) => CommandWait::Finished(*success),
        _ => CommandWait::KeepReading,
    }
}

/// The wait for the probe to be discoverable, after `read`.
pub open spec fn gap_set_discoverable_wait(read: HciRead) -> CommandWait<bool> {
    match (read, read.command_return()) {
        (HciRead::TimedOut, _) => CommandWait::Finished(false),
        (_, Some(CommandReturn::GapSetDiscoverable { success })) => CommandWait::Finished(success),
        _ => CommandWait::KeepReading,
    }
}

/// One packet, or none, came while the probe was to become discoverable.
pub fn wait_for_gap_set_discoverable_complete(read: &HciRead) -> (r: CommandWait<bool>)
    ensures
        r == gap_set_discoverable_wait(*read),
{
    match read {
        HciRead::TimedOut => CommandWait::Finished(false),
        HciRead::Event(
            HciEvent::CommandComplete(CommandReturn::GapSetDiscoverable { success }),
        ) => CommandWait::Finished(*success),
        _ => CommandWait::KeepReading,
    }
}

/// The wait for the advertising data to be updated, after `read`.
pub open spec fn gap_update_advertising_data_wait(read: HciRead) -> CommandWait<bool> {
    match (read, read.command_return()) {
        (HciRead::TimedOut, _) => CommandWait::Finished(false),
        (_, Some(CommandReturn::GapUpdateAdvertisingData { success })) => {
            CommandWait::Finished(success)
        },
        _ => CommandWait::KeepReading,
    }
}

/// One packet, or none, came while the advertising data was to be updated.
pub fn wait_for_gap_update_advertising_data_complete(read: &HciRead) -> (r: CommandWait<bool>)
    ensures
        r == gap_update_advertising_data_wait(*read),
{
    match read {
        HciRead::TimedOut => CommandWait::Finished(false),
        HciRead::Event(
            HciEvent::CommandComplete(CommandReturn::GapUpdateAdvertisingData { success }),
        ) => CommandWait::Finished(*success),
        _ => CommandWait::KeepReading,
    }
}

/// The wait for the probe not to be discoverable any more, after `read`.
pub open spec fn gap_set_nondiscoverable_wait(read: HciRead) -> CommandWait<bool> {
    match (read, read.command_return()) {
        (HciRead::TimedOut, _) => CommandWait::Finished(false),
        (_, Some(CommandReturn::GapSetNonDiscoverable { success })) => {
            CommandWait::Finished(success)
        },
        _ => CommandWait::KeepReading,
    }
}

/// One packet, or none, came while the probe was to stop being discoverable.
pub fn wait_for_gap_set_nondiscoverable_complete(read: &HciRead) -> (r: CommandWait<bool>)
    ensures
        r == gap_set_nondiscoverable_wait(*read),
{
    match read {
        HciRead::TimedOut => CommandWait::Finished(false),
        HciRead::Event(
            HciEvent::CommandComplete(CommandReturn::GapSetNonDiscoverable { success }),
        ) => CommandWait::Finished(*success),
        _ => CommandWait::KeepReading,
    }
}

/// The `count`-th late interrupt is reported: the first is, and then every 32nd.
pub open spec fn is_reported(count: u32) -> bool {
    count == 1 || count % 32 == 0
}

/// Whether the `count`-th late interrupt is reported: the first is, and then every 32nd.
pub fn isr_delay_is_reported(count: u32) -> (r: bool)
    ensures
        r == is_reported(count),
        r == (count == 1 || count % 32 == 0),
{
    count == 1 || count % 32 == 0
}

/// The wait for the end of adding a service ends with the packet that reports it, and as that packet says. A packet that
/// does not come in time ends it as failed, and any other packet, or a fault, does not end it.
pub proof fn law_gatt_add_service_wait_ends_with_its_packet(read: HciRead, handle: u16)
    ensures
        gatt_add_service_wait(HciRead::TimedOut) == CommandWait::Finished(None::<u16>),
        gatt_add_service_wait(
            HciRead::Event(
                HciEvent::CommandComplete(
                    CommandReturn::GattAddService { success: true, service_handle: handle },
                ),
            ),
        ) == CommandWait::Finished(Some(handle)),
        gatt_add_service_wait(
            HciRead::Event(
                HciEvent::CommandComplete(
                    CommandReturn::GattAddService { success: false, service_handle: handle },
                ),
            ),
        ) == CommandWait::Finished(None::<u16>),
        read !is TimedOut && !(read matches HciRead::Event(
            HciEvent::CommandComplete(CommandReturn::GattAddService { .. }),
        )) ==> gatt_add_service_wait(read) == CommandWait::<Option<u16>>::KeepReading,
{
}

/// The wait for the end of adding a characteristic ends with the packet that reports it, and as that packet says. A packet that
/// does not come in time ends it as failed, and any other packet, or a fault, does not end it.
pub proof fn law_gatt_add_characteristic_wait_ends_with_its_packet(read: HciRead, handle: u16)
    ensures
        gatt_add_characteristic_wait(HciRead::TimedOut) == CommandWait::Finished(None::<u16>),
        gatt_add_characteristic_wait(
            HciRead::Event(
                HciEvent::CommandComplete(
                    CommandReturn::GattAddCharacteristic { success: true, characteristic_handle: handle },
                ),
            ),
        ) == CommandWait::Finished(Some(handle)),
        gatt_add_characteristic_wait(
            HciRead::Event(
                HciEvent::CommandComplete(
                    CommandReturn::GattAddCharacteristic { success: false, characteristic_handle: handle },
                ),
            ),
        ) == CommandWait::Finished(None::<u16>),
        read !is TimedOut && !(read matches HciRead::Event(
            HciEvent::CommandComplete(CommandReturn::GattAddCharacteristic { .. }),
        )) ==> gatt_add_characteristic_wait(read) == CommandWait::<Option<u16>>::KeepReading,
{
}

/// The wait for the update of a value ends with the packet that reports it, and as that packet says. A packet that
/// does not come in time ends it as failed, and any other packet, or a fault, does not end it.
pub proof fn law_gatt_update_wait_ends_with_its_packet(read: HciRead, success: bool)
    ensures
        gatt_update_wait(HciRead::TimedOut) == CommandWait::Finished(false),
        gatt_update_wait(
            HciRead::Event(
                HciEvent::CommandComplete(CommandReturn::GattUpdateCharacteristicValue { success }),
            ),
        ) == CommandWait::Finished(success),
        read !is TimedOut && !(read matches HciRead::Event(
            HciEvent::CommandComplete(CommandReturn::GattUpdateCharacteristicValue { .. }),
        )) ==> gatt_update_wait(read) == CommandWait::<bool>::KeepReading,
{
}

/// The wait for being discoverable ends with the packet that reports it, and as that packet says. A packet that
/// does not come in time ends it as failed, and any other packet, or a fault, does not end it.
pub proof fn law_gap_set_discoverable_wait_ends_with_its_packet(read: HciRead, success: bool)
    ensures
        gap_set_discoverable_wait(HciRead::TimedOut) == CommandWait::Finished(false),
        gap_set_discoverable_wait(
            HciRead::Event(
                HciEvent::CommandComplete(CommandReturn::GapSetDiscoverable { success }),
            ),
        ) == CommandWait::Finished(success),
        read !is TimedOut && !(read matches HciRead::Event(
            HciEvent::CommandComplete(CommandReturn::GapSetDiscoverable { .. }),
        )) ==> gap_set_discoverable_wait(read) == CommandWait::<bool>::KeepReading,
{
}

/// The wait for the advertising data ends with the packet that reports it, and as that packet says. A packet that
/// does not come in time ends it as failed, and any other packet, or a fault, does not end it.
pub proof fn law_gap_update_advertising_data_wait_ends_with_its_packet(read: HciRead, success: bool)
    ensures
        gap_update_advertising_data_wait(HciRead::TimedOut) == CommandWait::Finished(false),
        gap_update_advertising_data_wait(
            HciRead::Event(
                HciEvent::CommandComplete(CommandReturn::GapUpdateAdvertisingData { success }),
            ),
        ) == CommandWait::Finished(success),
        read !is TimedOut && !(read matches HciRead::Event(
            HciEvent::CommandComplete(CommandReturn::GapUpdateAdvertisingData { .. }),
        )) ==> gap_update_advertising_data_wait(read) == CommandWait::<bool>::KeepReading,
{
}

/// The wait for not being discoverable ends with the packet that reports it, and as that packet says. A packet that
/// does not come in time ends it as failed, and any other packet, or a fault, does not end it.
pub proof fn law_gap_set_nondiscoverable_wait_ends_with_its_packet(read: HciRead, success: bool)
    ensures
        gap_set_nondiscoverable_wait(HciRead::TimedOut) == CommandWait::Finished(false),
        gap_set_nondiscoverable_wait(
            HciRead::Event(
                HciEvent::CommandComplete(CommandReturn::GapSetNonDiscoverable { success }),
            ),
        ) == CommandWait::Finished(success),
        read !is TimedOut && !(read matches HciRead::Event(
            HciEvent::CommandComplete(CommandReturn::GapSetNonDiscoverable { .. }),
        )) ==> gap_set_nondiscoverable_wait(read) == CommandWait::<bool>::KeepReading,
{
}

/// The first late interrupt is reported and every 32nd, and none between two of these.
pub proof fn law_late_interrupts_are_reported_now_and_then(n: u32, k: u32)
    ensures
        is_reported(1),
        n * 32 <= u32::MAX ==> is_reported((n * 32) as u32),
        n * 32 + k <= u32::MAX && 0 < k < 32 && n * 32 + k != 1 ==> !is_reported(
            (n * 32 + k) as u32,
        ),
{
}

} // verus!
