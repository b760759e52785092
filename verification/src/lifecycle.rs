//! The life of the probe: self tests, first set-up, and then one measurement cycle after the other.
//!
//! A cycle idles, measures the air, measures the soil, publishes the values, and advertises once.
//! The program performs what [`LifecycleStep`] asks for and reports the outcome as a
//! [`LifecycleEvent`].
use vstd::prelude::*;

use crate::bme280::Reading;
use crate::config::{SETUP_RETRY_MS, SLEEP_DURATION_MS};
use crate::hci::{
    wait_for_gap_set_discoverable_complete, wait_for_gap_update_advertising_data_complete,
    CommandWait, HciRead,
};
use crate::motor_command::simulate_motor_command_duplicate_and_expiry_rules;
use crate::motor_uart::{
    motor_uart_simulation_matrix_is_expected, simulate_motor_uart_ack_and_failsafe_matrix,
};
use crate::setup::first_boot_setup_is_pending;
use crate::snapshot::SensorSnapshot;
use crate::zts3000::Zts3000Reading;

verus! {

/// What the probe does next.
#[derive(Clone, Copy, Debug, PartialEq, Eq, Structural)]
pub enum LifecycleStep {
    /// Publish the snapshot for the first time.
    PublishInitial,
    /// Read the mark of the set-up.
    ReadFlag,
    /// Run a set-up session.
    RunSetup,
    /// Mark the set-up as complete.
    MarkSetupComplete,
    PauseSetup { ms: u64 },
    /// Read the mark of the set-up once more.
    ReadFlagAgain,
    /// Set the normal scan response again, and read one packet.
    RestoreScanResponse,
    /// Idle, with the motor watchdog looked at all the while.
    Idle { ms: u64 },
    MeasureAir,
    MeasureSoil,
    /// Publish the snapshot.
    Publish,
    /// Give the command to become discoverable.
    SetDiscoverable,
    /// Read a packet, within the time that a command may take.
    AwaitDiscoverable,
    /// Give the command to advertise the normal data.
    UpdateAdvertisingData,
    /// Read a packet, within the time that a command may take.
    AwaitAdvertisingData,
    /// Run an advertising session.
    Advertise,
    Halted,
}

/// What came of a step.
#[derive(Debug, PartialEq, Eq)]
pub enum LifecycleEvent {
    Published { ok: bool },
    /// What stands in flash where the mark of the set-up is, where it could be read.
    FlagRead(Option<[u8; 8]>),
    SetupEnded { confirmed: bool },
    Marked { ok: bool },
    Paused,
    ScanResponseRestored,
    Idled,
    AirMeasured(Option<Reading>),
    SoilMeasured(Option<Zts3000Reading>),
    /// Whether the command could be given.
    Sent { ok: bool },
    Read(HciRead),
    SessionEnded,
}

/// Where the probe stands in its life.
#[derive(Clone, Copy, Debug, PartialEq, Eq, Structural)]
pub struct Lifecycle {
    /// The values to publish.
    pub snapshot: SensorSnapshot,
    /// What the air phase of this cycle measured.
    pub air: Option<Reading>,
    pub step: LifecycleStep,
}

/// Set-up is pending, going by what stands in flash.
pub open spec fn flag_is_pending(stored: Option<[u8; 8]>) -> bool {
    crate::setup::is_pending(
        match stored {
            Some(bytes) => Some(bytes@),
            None => None,
        },
    )
}

/// A new cycle.
pub open spec fn idle_step() -> LifecycleStep {
    LifecycleStep::Idle { ms: SLEEP_DURATION_MS }
}

/// `step` where all went well, a new cycle otherwise.
pub open spec fn or_idle(ok: bool, step: LifecycleStep) -> LifecycleStep {
    if ok {
        step
    } else {
        idle_step()
    }
}

impl Lifecycle {
    /// The step that follows this one upon `event`. An event that does not answer what was asked
    /// for changes nothing.
    pub open spec fn step_after(self, event: LifecycleEvent) -> LifecycleStep {
        match (self.step, event) {
            (LifecycleStep::PublishInitial, LifecycleEvent::Published { ok }) => if ok {
                LifecycleStep::ReadFlag
            } else {
                LifecycleStep::Halted
            },
            (LifecycleStep::ReadFlag, LifecycleEvent::FlagRead(stored)) => if flag_is_pending(
                stored,
            ) {
                LifecycleStep::RunSetup
            } else {
                LifecycleStep::ReadFlagAgain
            },
            (LifecycleStep::RunSetup, LifecycleEvent::SetupEnded { confirmed }) => if confirmed {
                LifecycleStep::MarkSetupComplete
            } else {
                LifecycleStep::PauseSetup { ms: SETUP_RETRY_MS }
            },
            (LifecycleStep::MarkSetupComplete, LifecycleEvent::Marked { ok }) => if ok {
                LifecycleStep::ReadFlagAgain
            } else {
                LifecycleStep::PauseSetup { ms: SETUP_RETRY_MS }
            },
            (LifecycleStep::PauseSetup { .. }, LifecycleEvent::Paused) => LifecycleStep::ReadFlag,
            (LifecycleStep::ReadFlagAgain, LifecycleEvent::FlagRead(stored)) => if flag_is_pending(
                stored,
            ) {
                idle_step()
            } else {
                LifecycleStep::RestoreScanResponse
            },
            (LifecycleStep::RestoreScanResponse, LifecycleEvent::ScanResponseRestored) => {
                idle_step()
            },
            (LifecycleStep::Idle { .. }, LifecycleEvent::Idled) => LifecycleStep::MeasureAir,
            (LifecycleStep::MeasureAir, LifecycleEvent::AirMeasured(_)) => {
                LifecycleStep::MeasureSoil
            },
            (LifecycleStep::MeasureSoil, LifecycleEvent::SoilMeasured(_)) => LifecycleStep::Publish,
            (LifecycleStep::Publish, LifecycleEvent::Published { ok }) => or_idle(
                ok,
                LifecycleStep::SetDiscoverable,
            ),
            (LifecycleStep::SetDiscoverable, LifecycleEvent::Sent { ok }) => or_idle(
                ok,
                LifecycleStep::AwaitDiscoverable,
            ),
            (LifecycleStep::AwaitDiscoverable, LifecycleEvent::Read(read)) => {
                match crate::hci::gap_set_discoverable_wait(read) {
                    CommandWait::KeepReading => self.step,
                    CommandWait::Finished(ok) => or_idle(ok, LifecycleStep::UpdateAdvertisingData),
                }
            },
            (LifecycleStep::UpdateAdvertisingData, LifecycleEvent::Sent { ok }) => or_idle(
                ok,
                LifecycleStep::AwaitAdvertisingData,
            ),
            (LifecycleStep::AwaitAdvertisingData, LifecycleEvent::Read(read)) => {
                match crate::hci::gap_update_advertising_data_wait(read) {
                    CommandWait::KeepReading => self.step,
                    CommandWait::Finished(ok) => or_idle(ok, LifecycleStep::Advertise),
                }
            },
            (LifecycleStep::Advertise, LifecycleEvent::SessionEnded) => idle_step(),
            _ => self.step,
        }
    }

    /// Where the probe stands after `event`.
    pub open spec fn after(self, event: LifecycleEvent) -> Lifecycle {
        Lifecycle {
            step: self.step_after(event),
            air: match (self.step, event) {
                (LifecycleStep::MeasureAir, LifecycleEvent::AirMeasured(reading)) => reading,
                _ => self.air,
            },
            snapshot: match (self.step, event) {
                (
                    LifecycleStep::MeasureSoil,
                    LifecycleEvent::SoilMeasured(reading),
                ) => SensorSnapshot::of(self.air, reading),
                _ => self.snapshot,
            },
        }
    }

    /// The probe as it starts.
    pub open spec fn booted() -> Lifecycle {
        Lifecycle {
            snapshot: SensorSnapshot::nothing(),
            air: None,
            step: LifecycleStep::PublishInitial,
        }
    }

    /// The probe starts, after its self tests. They pass, so it does not halt there.
    pub fn boot() -> (r: Lifecycle)
        ensures
            r == Lifecycle::booted(),
            r == (Lifecycle {
                snapshot: SensorSnapshot::nothing(),
                air: None,
                step: LifecycleStep::PublishInitial,
            }),
    {
        let matrix = simulate_motor_uart_ack_and_failsafe_matrix();
        let step = if !motor_uart_simulation_matrix_is_expected(matrix) {
            LifecycleStep::Halted
        } else if !simulate_motor_command_duplicate_and_expiry_rules() {
            LifecycleStep::Halted
        } else {
            LifecycleStep::PublishInitial
        };
        Lifecycle { snapshot: SensorSnapshot::default(), air: None, step }
    }

    fn or_idle(&mut self, ok: bool, step: LifecycleStep)
        ensures
            *final(self) == (Lifecycle { step: or_idle(ok, step), ..*old(self) }),
    {
        self.step = if ok {
            step
        } else {
            LifecycleStep::Idle { ms: SLEEP_DURATION_MS }
        };
    }

    /// What was asked for came to `event`.
    pub fn next(&mut self, event: LifecycleEvent)
        ensures
            *final(self) == old(self).after(event),
    {
        match (self.step, event) {
            (LifecycleStep::PublishInitial, LifecycleEvent::Published { ok }) => {
                self.step = if ok {
                    LifecycleStep::ReadFlag
                } else {
                    LifecycleStep::Halted
                };
            },
            (LifecycleStep::ReadFlag, LifecycleEvent::FlagRead(stored)) => {
                self.step = if first_boot_setup_is_pending(stored) {
                    LifecycleStep::RunSetup
                } else {
                    LifecycleStep::ReadFlagAgain
                };
            },
            (LifecycleStep::RunSetup, LifecycleEvent::SetupEnded { confirmed }) => {
                self.step = if confirmed {
                    LifecycleStep::MarkSetupComplete
                } else {
                    LifecycleStep::PauseSetup { ms: SETUP_RETRY_MS }
                };
            },
            (LifecycleStep::MarkSetupComplete, LifecycleEvent::Marked { ok }) => {
                self.step = if ok {
                    LifecycleStep::ReadFlagAgain
                } else {
                    LifecycleStep::PauseSetup { ms: SETUP_RETRY_MS }
                };
            },
            (LifecycleStep::PauseSetup { .. }, LifecycleEvent::Paused) => {
                self.step = LifecycleStep::ReadFlag;
            },
            (LifecycleStep::ReadFlagAgain, LifecycleEvent::FlagRead(stored)) => {
                self.or_idle(
                    !first_boot_setup_is_pending(stored),
                    LifecycleStep::RestoreScanResponse,
                );
            },
            (LifecycleStep::RestoreScanResponse, LifecycleEvent::ScanResponseRestored) => {
                self.step = LifecycleStep::Idle { ms: SLEEP_DURATION_MS };
            },
            (LifecycleStep::Idle { .. }, LifecycleEvent::Idled) => {
                self.step = LifecycleStep::MeasureAir;
            },
            (LifecycleStep::MeasureAir, LifecycleEvent::AirMeasured(reading)) => {
                self.air = reading;
                self.step = LifecycleStep::MeasureSoil;
            },
            (LifecycleStep::MeasureSoil, LifecycleEvent::SoilMeasured(reading)) => {
                self.snapshot = SensorSnapshot::from_phase_results(self.air, reading);
                self.step = LifecycleStep::Publish;
            },
            (LifecycleStep::Publish, LifecycleEvent::Published { ok }) => {
                self.or_idle(ok, LifecycleStep::SetDiscoverable);
            },
            (LifecycleStep::SetDiscoverable, LifecycleEvent::Sent { ok }) => {
                self.or_idle(ok, LifecycleStep::AwaitDiscoverable);
            },
            (LifecycleStep::AwaitDiscoverable, LifecycleEvent::Read(read)) => {
                match wait_for_gap_set_discoverable_complete(&read) {
                    CommandWait::KeepReading => {},
                    CommandWait::Finished(ok) => {
                        self.or_idle(ok, LifecycleStep::UpdateAdvertisingData);
                    },
                }
            },
            (LifecycleStep::UpdateAdvertisingData, LifecycleEvent::Sent { ok }) => {
                self.or_idle(ok, LifecycleStep::AwaitAdvertisingData);
            },
            (LifecycleStep::AwaitAdvertisingData, LifecycleEvent::Read(read)) => {
                match wait_for_gap_update_advertising_data_complete(&read) {
                    CommandWait::KeepReading => {},
                    CommandWait::Finished(ok) => {
                        self.or_idle(ok, LifecycleStep::Advertise);
                    },
                }
            },
            (LifecycleStep::Advertise, LifecycleEvent::SessionEnded) => {
                self.step = LifecycleStep::Idle { ms: SLEEP_DURATION_MS };
            },
            _ => {},
        }
    }

    /// The probe is in its measurement cycles.
    pub open spec fn is_cycling(self) -> bool {
        match self.step {
            LifecycleStep::Idle { .. } => true,
            LifecycleStep::MeasureAir => true,
            LifecycleStep::MeasureSoil => true,
            LifecycleStep::Publish => true,
            LifecycleStep::SetDiscoverable => true,
            LifecycleStep::AwaitDiscoverable => true,
            LifecycleStep::UpdateAdvertisingData => true,
            LifecycleStep::AwaitAdvertisingData => true,
            LifecycleStep::Advertise => true,
            _ => false,
        }
    }
}

/// Once it cycles, the probe cycles for ever: no event halts it or sends it back to set-up.
pub proof fn law_cycles_go_on_for_ever(before: Lifecycle, event: LifecycleEvent)
    requires
        before.is_cycling(),
    ensures
        before.after(event).is_cycling(),
{
}

/// A cycle in which all goes well idles, measures the air, measures the soil, publishes what was
/// measured, advertises, and idles again.
pub proof fn law_cycle_runs_in_order(
    start: Lifecycle,
    air: Option<Reading>,
    soil: Option<Zts3000Reading>,
    discoverable: HciRead,
    updated: HciRead,
)
    requires
        start.step == idle_step(),
        crate::hci::gap_set_discoverable_wait(discoverable) == CommandWait::Finished(true),
        crate::hci::gap_update_advertising_data_wait(updated) == CommandWait::Finished(true),
    ensures
        ({
            let s1 = start.after(LifecycleEvent::Idled);
            let s2 = s1.after(LifecycleEvent::AirMeasured(air));
            let s3 = s2.after(LifecycleEvent::SoilMeasured(soil));
            let s4 = s3.after(LifecycleEvent::Published { ok: true });
            let s5 = s4.after(LifecycleEvent::Sent { ok: true });
            let s6 = s5.after(LifecycleEvent::Read(discoverable));
            let s7 = s6.after(LifecycleEvent::Sent { ok: true });
            let s8 = s7.after(LifecycleEvent::Read(updated));
            let s9 = s8.after(LifecycleEvent::SessionEnded);
            &&& s1.step is MeasureAir
            &&& s2.step is MeasureSoil
            &&& s3.step is Publish
            &&& s3.snapshot == SensorSnapshot::of(air, soil)
            &&& s4.step is SetDiscoverable
            &&& s5.step is AwaitDiscoverable
            &&& s6.step is UpdateAdvertisingData
            &&& s7.step is AwaitAdvertisingData
            &&& s8.step is Advertise
            &&& s9.step == idle_step()
        }),
{
}

/// A cycle in which a command to the radio fails goes back to idling without advertising.
pub proof fn law_failed_cycle_idles_again(before: Lifecycle, event: LifecycleEvent)
    requires
        match before.step {
            LifecycleStep::Publish => event == (LifecycleEvent::Published { ok: false }),
            LifecycleStep::SetDiscoverable => event == (LifecycleEvent::Sent { ok: false }),
            LifecycleStep::AwaitDiscoverable => event matches LifecycleEvent::Read(read)
                && crate::hci::gap_set_discoverable_wait(read) == CommandWait::Finished(false),
            LifecycleStep::UpdateAdvertisingData => event == (LifecycleEvent::Sent { ok: false }),
            LifecycleStep::AwaitAdvertisingData => event matches LifecycleEvent::Read(read)
                && crate::hci::gap_update_advertising_data_wait(read) == CommandWait::Finished(
                false,
            ),
            _ => false,
        },
    ensures
        before.after(event).step == idle_step(),
{
}

/// The probe only leaves its set-up where the mark was found in flash, or was just put there after
/// the hub had confirmed.
pub proof fn law_setup_is_left_only_with_the_mark(before: Lifecycle, event: LifecycleEvent)
    requires
        before.step is ReadFlag || before.step is RunSetup || before.step is MarkSetupComplete
            || before.step is PauseSetup,
    ensures
        ({
            let after = before.after(event);
            ||| after.step is ReadFlag || after.step is RunSetup || after.step is MarkSetupComplete
                || after.step is PauseSetup
            ||| {
                &&& before.step is ReadFlag
                &&& event matches LifecycleEvent::FlagRead(stored)
                &&& !flag_is_pending(stored)
            }
            ||| before.step is MarkSetupComplete && event == (LifecycleEvent::Marked { ok: true })
        }),
        before.after(event).step is MarkSetupComplete && before.step !is MarkSetupComplete
            ==> before.step is RunSetup && event == (LifecycleEvent::SetupEnded {
            confirmed: true,
        }),
{
}

/// Before its cycles the probe publishes once, and halts where that fails. It then looks for the mark
/// of the set-up: where it is missing a session is run, and where the session is not confirmed or the
/// mark cannot be put there, it looks again after a second. With the mark the normal scan response is
/// restored before the first cycle.
pub proof fn law_first_boot_runs_in_order(before: Lifecycle, stored: [u8; 8])
    ensures
        ({
            let word = seq![0x48u8, 0x48, 0x53, 0x45, 0x54, 0x55, 0x50, 0x31];
            let pause = LifecycleStep::PauseSetup { ms: 1_000 };
            let idle = LifecycleStep::Idle { ms: 30_000 };
            &&& before.step is PublishInitial ==> {
                &&& before.after(LifecycleEvent::Published { ok: true }).step is ReadFlag
                &&& before.after(LifecycleEvent::Published { ok: false }).step is Halted
            }
            &&& before.step is ReadFlag ==> {
                &&& before.after(LifecycleEvent::FlagRead(None)).step is RunSetup
                &&& stored@ != word ==> before.after(
                    LifecycleEvent::FlagRead(Some(stored)),
                ).step is RunSetup
                &&& stored@ == word ==> before.after(
                    LifecycleEvent::FlagRead(Some(stored)),
                ).step is ReadFlagAgain
            }
            &&& before.step is RunSetup ==> {
                &&& before.after(
                    LifecycleEvent::SetupEnded { confirmed: true },
                ).step is MarkSetupComplete
                &&& before.after(LifecycleEvent::SetupEnded { confirmed: false }).step == pause
            }
            &&& before.step is MarkSetupComplete ==> {
                &&& before.after(LifecycleEvent::Marked { ok: true }).step is ReadFlagAgain
                &&& before.after(LifecycleEvent::Marked { ok: false }).step == pause
            }
            &&& before.step is PauseSetup ==> before.after(LifecycleEvent::Paused).step is ReadFlag
            &&& before.step is ReadFlagAgain ==> {
                &&& before.after(LifecycleEvent::FlagRead(None)).step == idle
                &&& stored@ != word ==> before.after(LifecycleEvent::FlagRead(Some(stored))).step
                    == idle
                &&& stored@ == word ==> before.after(
                    LifecycleEvent::FlagRead(Some(stored)),
                ).step is RestoreScanResponse
            }
            &&& before.step is RestoreScanResponse ==> before.after(
                LifecycleEvent::ScanResponseRestored,
            ).step == idle
            &&& idle_step() == idle
        }),
{
    assert(crate::setup::SETUP_COMPLETE_MAGIC@ =~= seq![
        0x48u8,
        0x48,
        0x53,
        0x45,
        0x54,
        0x55,
        0x50,
        0x31,
    ]);
}

/// What is published changes only once the soil was measured, to what the air and the soil phase of
/// the same cycle measured.
pub proof fn law_published_values_are_those_of_the_cycle(before: Lifecycle, event: LifecycleEvent)
    ensures
        ({
            let after = before.after(event);
            &&& match (before.step, event) {
                (LifecycleStep::MeasureAir, LifecycleEvent::AirMeasured(air)) => after.air == air,
                _ => after.air == before.air,
            }
            &&& match (before.step, event) {
                (LifecycleStep::MeasureSoil, LifecycleEvent::SoilMeasured(soil)) => after.snapshot
                    == SensorSnapshot::of(before.air, soil),
                _ => after.snapshot == before.snapshot,
            }
        }),
{
}

/// An event that does not answer what the probe asked for changes nothing, and a probe that has halted
/// stays as it is.
pub proof fn law_probe_waits_for_its_answer(before: Lifecycle, event: LifecycleEvent)
    requires
        match before.step {
            LifecycleStep::PublishInitial => event !is Published,
            LifecycleStep::ReadFlag => event !is FlagRead,
            LifecycleStep::RunSetup => event !is SetupEnded,
            LifecycleStep::MarkSetupComplete => event !is Marked,
            LifecycleStep::PauseSetup { .. } => event !is Paused,
            LifecycleStep::ReadFlagAgain => event !is FlagRead,
            LifecycleStep::RestoreScanResponse => event !is ScanResponseRestored,
            LifecycleStep::Idle { .. } => event !is Idled,
            LifecycleStep::MeasureAir => event !is AirMeasured,
            LifecycleStep::MeasureSoil => event !is SoilMeasured,
            LifecycleStep::Publish => event !is Published,
            LifecycleStep::SetDiscoverable => event !is Sent,
            LifecycleStep::AwaitDiscoverable => event matches LifecycleEvent::Read(read)
                ==> crate::hci::gap_set_discoverable_wait(read) is KeepReading,
            LifecycleStep::UpdateAdvertisingData => event !is Sent,
            LifecycleStep::AwaitAdvertisingData => event matches LifecycleEvent::Read(read)
                ==> crate::hci::gap_update_advertising_data_wait(read) is KeepReading,
            LifecycleStep::Advertise => event !is SessionEnded,
            LifecycleStep::Halted => true,
        },
    ensures
        before.after(event) == before,
{
}

/// The probe starts with nothing measured, and publishes that first.
pub proof fn law_probe_starts_with_nothing_measured()
    ensures
        Lifecycle::booted().step is PublishInitial,
        Lifecycle::booted().air is None,
        Lifecycle::booted().snapshot == SensorSnapshot::of(None, None),
{
}

} // verus!
