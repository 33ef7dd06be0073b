use airtag_scanner::executor::{
    find_sound_characteristic, ActionExecutor, ActionOutcome, CharacteristicDesc, DeviceId,
    ExecPhase, PLAY_SOUND_CHARACTERISTIC_UUID, SOUND_SERVICE_UUID,
};

fn sound_characteristic() -> CharacteristicDesc {
    CharacteristicDesc { service: SOUND_SERVICE_UUID, uuid: PLAY_SOUND_CHARACTERISTIC_UUID }
}

fn other_characteristic(n: u128) -> CharacteristicDesc {
    CharacteristicDesc { service: 0x1800, uuid: n }
}

#[test]
fn find_in_empty_list_is_none() {
    let characteristics: Vec<CharacteristicDesc> = Vec::new();
    assert_eq!(find_sound_characteristic(&characteristics), None);
}

#[test]
fn find_skips_non_matching_descriptors() {
    let characteristics = vec![
        other_characteristic(0x2A00),
        other_characteristic(0x2A01),
        CharacteristicDesc { service: 0x1800, uuid: PLAY_SOUND_CHARACTERISTIC_UUID },
        CharacteristicDesc { service: SOUND_SERVICE_UUID, uuid: 0x2A05 },
    ];
    assert_eq!(find_sound_characteristic(&characteristics), None);
}

#[test]
fn find_returns_first_match() {
    let characteristics = vec![
        other_characteristic(0x2A00),
        sound_characteristic(),
        sound_characteristic(),
    ];
    assert_eq!(find_sound_characteristic(&characteristics), Some(1));
}

#[test]
fn connect_failure_finishes_attempt() {
    let mut exec = ActionExecutor::begin(DeviceId { token: 7 });
    assert_eq!(exec.phase, ExecPhase::Connecting);
    exec.on_connect_result(false);
    assert_eq!(exec.phase, ExecPhase::Finished(ActionOutcome::ConnectFailed));
    assert_eq!(exec.device, DeviceId { token: 7 });
}

#[test]
fn discover_failure_finishes_attempt() {
    let mut exec = ActionExecutor::begin(DeviceId { token: 8 });
    exec.on_connect_result(true);
    assert_eq!(exec.phase, ExecPhase::Discovering);
    let target = exec.on_discover_result(false, &Vec::new());
    assert_eq!(target, None);
    assert_eq!(exec.phase, ExecPhase::Finished(ActionOutcome::DiscoverFailed));
}

#[test]
fn write_failure_finishes_attempt() {
    let mut exec = ActionExecutor::begin(DeviceId { token: 9 });
    exec.on_connect_result(true);
    let target = exec.on_discover_result(true, &vec![sound_characteristic()]);
    assert_eq!(target, Some(sound_characteristic()));
    assert_eq!(exec.phase, ExecPhase::Writing);
    exec.on_write_result(false);
    assert_eq!(exec.phase, ExecPhase::Finished(ActionOutcome::WriteFailed));
}

#[test]
fn disconnect_failure_is_terminal_without_retry() {
    let mut exec = ActionExecutor::begin(DeviceId { token: 10 });
    exec.on_connect_result(true);
    exec.on_discover_result(true, &vec![sound_characteristic()]);
    exec.on_write_result(true);
    assert_eq!(exec.phase, ExecPhase::Disconnecting);
    exec.on_disconnect_result(false);
    assert_eq!(exec.phase, ExecPhase::Finished(ActionOutcome::DisconnectFailed));
}
