//! The scan coordinator: owns the scan → detect → act → recover state
//! machine over the adapter's event stream. Events are handed to it one
//! at a time and it answers with the adapter operation to perform next;
//! it never performs one itself. At most one action is in flight at any
//! time, and every terminal outcome — success or any failure — re-arms
//! scanning, so no state is left unrecoverable.

use vstd::prelude::*;
use std::collections::HashMap;
use crate::classifier::{is_airtag, spec_is_airtag};
use crate::executor::{ActionOutcome, DeviceId};

verus! {

/// The coordinator's state: before the first scan, scanning, or driving
/// one action attempt against a recorded device.
#[derive(Clone, Copy, PartialEq, Eq, Structural, Debug)]
pub enum CoordinatorState {
    Idle,
    Scanning,
    ActionInFlight { device: DeviceId },
}

/// The adapter operation the coordinator asks for in answer to an
/// event: issue a start-scan request, stop scanning and run one action
/// attempt against the device, or do nothing.
#[derive(Clone, Copy, PartialEq, Eq, Structural, Debug)]
pub enum ScanDirective {
    StartScan,
    StopScanAndAct { device: DeviceId },
    Ignore,
}

/// The coordinator itself. It processes events strictly one at a time:
/// scanning and acting are mutually exclusive states, which is what
/// keeps the single shared adapter safe without locks.
pub struct Coordinator {
    pub state: CoordinatorState,
}

impl Coordinator {
    /// A fresh coordinator, idle until scanning is started.
    pub fn new() -> (c: Coordinator)
        ensures
            c.state is Idle,
    {
        Coordinator { state: CoordinatorState::Idle }
    }

    /// Startup transition: leave `Idle` and request continuous scanning
    /// with no service filter — classification is the sole filter.
    pub fn start(&mut self) -> (d: ScanDirective)
        requires
            old(self).state is Idle,
        ensures
            final(self).state is Scanning,
            d is StartScan,
    {
        self.state = CoordinatorState::Scanning;
        ScanDirective::StartScan
    }

    /// Route one manufacturer-data advertisement. While scanning, an
    /// advertisement that classifies as a tracking tag records the
    /// device, moves to `ActionInFlight` and asks for the scan to stop
    /// before the action runs; any other advertisement is ignored
    /// without a state change. Outside `Scanning` the event is ignored.
    pub fn on_advertisement(
        &mut self,
        device: DeviceId,
        manufacturer_data: &HashMap<u16, Vec<u8>>,
    ) -> (d: ScanDirective)
        ensures
            old(self).state is Scanning && spec_is_airtag(manufacturer_data@)
                ==> final(self).state == (CoordinatorState::ActionInFlight { device })
                && d == (ScanDirective::StopScanAndAct { device }),
            old(self).state is Scanning && !spec_is_airtag(manufacturer_data@)
                ==> final(self).state == old(self).state && d is Ignore,
            !(old(self).state is Scanning)
                ==> final(self).state == old(self).state && d is Ignore,
    {
        match self.state {
            CoordinatorState::Scanning => {
                if is_airtag(manufacturer_data) {
                    self.state = CoordinatorState::ActionInFlight { device };
                    ScanDirective::StopScanAndAct { device }
                } else {
                    ScanDirective::Ignore
                }
            },
            _ => ScanDirective::Ignore,
        }
    }

    /// A device-removed event never changes the coordinator's state; it
    /// is observed and ignored.
    pub fn on_device_removed(&mut self, device: DeviceId) -> (d: ScanDirective)
        ensures
            final(self).state == old(self).state,
            d is Ignore,
    {
        let _ = device;
        ScanDirective::Ignore
    }

    /// Terminal outcome of an action attempt. Whatever the outcome —
    /// success or any of the five failure kinds — and whatever state the
    /// coordinator was in, it returns to `Scanning` and asks for the
    /// scan to be re-armed: recovery is unconditional, never a stuck
    /// `ActionInFlight` and never a fall back to `Idle`.
    pub fn on_outcome(&mut self, outcome: ActionOutcome) -> (d: ScanDirective)
        ensures
            final(self).state is Scanning,
            d is StartScan,
    {
        let _ = outcome;
        self.state = CoordinatorState::Scanning;
        ScanDirective::StartScan
    }
}

} // verus!
