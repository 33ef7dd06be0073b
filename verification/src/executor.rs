//! The action executor: once a tracking tag has been classified, it
//! sequences connect, service discovery, characteristic lookup, the
//! play-sound write and disconnect, short-circuiting every failure to a
//! terminal outcome. The executor itself only decides; the BLE calls are
//! performed outside and their results fed back in, one step at a time.

use vstd::prelude::*;

verus! {

/// Identifier of a device as assigned by the adapter for one scan, an
/// opaque token: the executor only records it and hands it back.
#[derive(Clone, Copy, PartialEq, Eq, Structural, Debug)]
pub struct DeviceId {
    pub token: u64,
}

/// Terminal result of one action attempt. Every failure of a step maps
/// to its own variant; none is silently dropped.
#[derive(Clone, Copy, PartialEq, Eq, Structural, Debug)]
pub enum ActionOutcome {
    Success,
    ConnectFailed,
    DiscoverFailed,
    CharacteristicNotFound,
    WriteFailed,
    DisconnectFailed,
}

/// One discovered characteristic, described by the identifier of the
/// service it sits under and its own identifier, both as 128-bit UUID
/// values.
#[derive(Clone, Copy, PartialEq, Eq, Structural, Debug)]
pub struct CharacteristicDesc {
    pub service: u128,
    pub uuid: u128,
}

/// UUID of the tag's sound service.
pub const SOUND_SERVICE_UUID: u128 = 0x7DFC9000_7D1C_4951_86AA_8D9728F8D66C;

/// UUID of the play-sound characteristic under the sound service.
pub const PLAY_SOUND_CHARACTERISTIC_UUID: u128 = 0x7DFC9001_7D1C_4951_86AA_8D9728F8D66C;

/// Single-byte command written (with response) to the play-sound
/// characteristic to trigger the audible alert.
pub const PLAY_SOUND_COMMAND: u8 = 0xAF;

/// A characteristic descriptor is the play-sound target exactly when it
/// carries the known characteristic UUID under the known sound service.
pub open spec fn is_sound_characteristic(c: CharacteristicDesc) -> bool {
    c.service == SOUND_SERVICE_UUID && c.uuid == PLAY_SOUND_CHARACTERISTIC_UUID
}

/// Locate the play-sound characteristic among the discovered ones.
/// Returns the index of the first descriptor matching the known service
/// and characteristic UUIDs, or `None` when no descriptor matches;
/// absence is an ordinary result, not an error.
pub fn find_sound_characteristic(characteristics: &Vec<CharacteristicDesc>) -> (r: Option<usize>)
    ensures
        match r {
            Some(i) => i < characteristics@.len() && is_sound_characteristic(
                characteristics@[i as int],
            ) && (forall|j: int|
                0 <= j < i ==> !is_sound_characteristic(#[trigger] characteristics@[j])),
            None => forall|j: int|
                0 <= j < characteristics@.len() ==> !is_sound_characteristic(
                    #[trigger] characteristics@[j],
                ),
        },
{
    let mut i: usize = 0;
    while i < characteristics.len()
        invariant
            i <= characteristics@.len(),
            forall|j: int|
                0 <= j < i ==> !is_sound_characteristic(#[trigger] characteristics@[j]),
        decreases characteristics@.len() - i,
    {
        let c = characteristics[i];
        if c.service == SOUND_SERVICE_UUID && c.uuid == PLAY_SOUND_CHARACTERISTIC_UUID {
            return Some(i);
        }
        i = i + 1;
    }
    None
}

/// Where one action attempt stands: which BLE step is awaited, or the
/// terminal outcome once the attempt is over.
#[derive(Clone, Copy, PartialEq, Eq, Structural, Debug)]
pub enum ExecPhase {
    Connecting,
    Discovering,
    Writing,
    Disconnecting,
    Finished(ActionOutcome),
}

/// One action attempt against one classified tag. Lives for a single
/// attempt: created when the tag is selected, finished on the first
/// failing step or after disconnect. Each `on_*_result` method consumes
/// the result of the BLE step the phase awaits and decides the next
/// phase; no step is retried internally.
pub struct ActionExecutor {
    pub device: DeviceId,
    pub phase: ExecPhase,
}

impl ActionExecutor {
    /// Begin an attempt on the given device; the first awaited step is
    /// the connect.
    pub fn begin(device: DeviceId) -> (e: ActionExecutor)
        ensures
            e.device == device,
            e.phase is Connecting,
    {
        ActionExecutor { device, phase: ExecPhase::Connecting }
    }

    /// Consume the connect result: success moves on to service
    /// discovery, failure ends the attempt as `ConnectFailed`.
    pub fn on_connect_result(&mut self, ok: bool)
        requires
            old(self).phase is Connecting,
        ensures
            final(self).device == old(self).device,
            ok ==> final(self).phase is Discovering,
            !ok ==> final(self).phase == ExecPhase::Finished(ActionOutcome::ConnectFailed),
    {
        if ok {
            self.phase = ExecPhase::Discovering;
        } else {
            self.phase = ExecPhase::Finished(ActionOutcome::ConnectFailed);
        }
    }

    /// Consume the discovery result. On failure the attempt ends as
    /// `DiscoverFailed`. On success the play-sound characteristic is
    /// looked up among the discovered descriptors: the first match is
    /// returned as the write target and the attempt moves on to the
    /// write; absence ends the attempt as `CharacteristicNotFound`
    /// without any write being requested.
    pub fn on_discover_result(
        &mut self,
        ok: bool,
        characteristics: &Vec<CharacteristicDesc>,
    ) -> (target: Option<CharacteristicDesc>)
        requires
            old(self).phase is Discovering,
        ensures
            final(self).device == old(self).device,
            !ok ==> final(self).phase == ExecPhase::Finished(ActionOutcome::DiscoverFailed)
                && target is None,
            ok ==> match target {
                Some(c) => final(self).phase is Writing && (exists|i: int|
                    0 <= i < characteristics@.len() && #[trigger] characteristics@[i] == c
                        && is_sound_characteristic(c) && (forall|j: int|
                        0 <= j < i ==> !is_sound_characteristic(
                            #[trigger] characteristics@[j],
                        ))),
                None => final(self).phase == ExecPhase::Finished(
                    ActionOutcome::CharacteristicNotFound,
                ) && (forall|j: int|
                    0 <= j < characteristics@.len() ==> !is_sound_characteristic(
                        #[trigger] characteristics@[j],
                    )),
            },
    {
        if !ok {
            self.phase = ExecPhase::Finished(ActionOutcome::DiscoverFailed);
            return None;
        }
        match find_sound_characteristic(characteristics) {
            Some(i) => {
                self.phase = ExecPhase::Writing;
                Some(characteristics[i])
            },
            None => {
                self.phase = ExecPhase::Finished(ActionOutcome::CharacteristicNotFound);
                None
            },
        }
    }

    /// Consume the result of the acknowledged write: success moves on to
    /// disconnect, failure ends the attempt as `WriteFailed`.
    pub fn on_write_result(&mut self, ok: bool)
        requires
            old(self).phase is Writing,
        ensures
            final(self).device == old(self).device,
            ok ==> final(self).phase is Disconnecting,
            !ok ==> final(self).phase == ExecPhase::Finished(ActionOutcome::WriteFailed),
    {
        if ok {
            self.phase = ExecPhase::Disconnecting;
        } else {
            self.phase = ExecPhase::Finished(ActionOutcome::WriteFailed);
        }
    }

    /// Consume the disconnect result: success ends the attempt as
    /// `Success`, failure as `DisconnectFailed`. Either way the attempt
    /// is terminal; the disconnect is not retried.
    pub fn on_disconnect_result(&mut self, ok: bool)
        requires
            old(self).phase is Disconnecting,
        ensures
            final(self).device == old(self).device,
            ok ==> final(self).phase == ExecPhase::Finished(ActionOutcome::Success),
            !ok ==> final(self).phase == ExecPhase::Finished(ActionOutcome::DisconnectFailed),
    {
        if ok {
            self.phase = ExecPhase::Finished(ActionOutcome::Success);
        } else {
            self.phase = ExecPhase::Finished(ActionOutcome::DisconnectFailed);
        }
    }
}

} // verus!
