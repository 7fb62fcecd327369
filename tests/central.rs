use ble_midi_bridge::central::{
    find_peripheral, CentralAction, CentralBridge, CentralConfig, CentralEvent, CentralState,
};
use ble_midi_bridge::error::BridgeError;
use ble_midi_bridge::gatt::MIDI_CHARACTERISTIC_UUID;
use ble_midi_bridge::naming::NameRule;

const OTHER_UUID: u128 = 0x2A00;

fn config() -> CentralConfig {
    CentralConfig {
        target_name: "CH-8".to_string(),
        name_rule: NameRule { exact: false, ignore_ascii_case: false },
        service_filter: None,
        characteristic_uuid: MIDI_CHARACTERISTIC_UUID,
        scan_window_secs: 4,
    }
}

fn names(list: &[Option<&str>]) -> Vec<Option<String>> {
    list.iter().map(|n| n.map(|s| s.to_string())).collect()
}

fn ready_bridge() -> CentralBridge {
    let mut b = CentralBridge::new(config());
    b.step(CentralEvent::AdapterAcquired { available: true });
    b.step(CentralEvent::ScanCompleted { names: names(&[None, Some("Roland CH-8")]) });
    b.step(CentralEvent::ConnectCompleted { ok: true });
    b.step(CentralEvent::DiscoveryCompleted { characteristics: vec![OTHER_UUID, MIDI_CHARACTERISTIC_UUID] });
    assert_eq!(b.state, CentralState::Ready);
    b
}

#[test]
fn full_setup_then_write() {
    let mut b = CentralBridge::new(config());
    assert_eq!(b.state, CentralState::Idle);
    assert_eq!(b.first_action(), CentralAction::AcquireAdapter);
    assert_eq!(
        b.step(CentralEvent::AdapterAcquired { available: true }),
        CentralAction::StartScan { service_filter: None, window_secs: 4 }
    );
    assert_eq!(b.state, CentralState::Scanning);
    assert_eq!(
        b.step(CentralEvent::ScanCompleted { names: names(&[Some("Speaker"), None, Some("Roland CH-8"), Some("CH-8 two")]) }),
        CentralAction::Connect { peripheral: 2 }
    );
    assert_eq!(b.state, CentralState::Connecting);
    assert_eq!(b.step(CentralEvent::ConnectCompleted { ok: true }), CentralAction::DiscoverServices);
    assert_eq!(b.state, CentralState::Discovering);
    assert_eq!(
        b.step(CentralEvent::DiscoveryCompleted { characteristics: vec![OTHER_UUID, MIDI_CHARACTERISTIC_UUID] }),
        CentralAction::ReceiveEvent
    );
    assert_eq!(b.state, CentralState::Ready);
    assert_eq!(
        b.step(CentralEvent::EventReceived { payload: Some(vec![0x90, 0x3C, 0x7F]) }),
        CentralAction::Write { characteristic: 1, packet: vec![0x80, 0x80, 0x90, 0x3C, 0x7F] }
    );
    assert_eq!(b.step(CentralEvent::WriteCompleted { ok: true }), CentralAction::ReceiveEvent);
    assert_eq!(b.state, CentralState::Ready);
}

#[test]
fn no_write_before_ready() {
    let mut b = CentralBridge::new(config());
    let event = || CentralEvent::EventReceived { payload: Some(vec![0x90, 0x3C, 0x7F]) };
    assert_eq!(b.step(event()), CentralAction::Nothing);
    b.step(CentralEvent::AdapterAcquired { available: true });
    assert_eq!(b.step(event()), CentralAction::Nothing);
    b.step(CentralEvent::ScanCompleted { names: names(&[Some("CH-8")]) });
    assert_eq!(b.step(event()), CentralAction::Nothing);
    b.step(CentralEvent::ConnectCompleted { ok: true });
    assert_eq!(b.step(event()), CentralAction::Nothing);
    assert_eq!(b.state, CentralState::Discovering);
}

#[test]
fn scan_without_match_fails_with_peripheral_not_found() {
    let mut b = CentralBridge::new(config());
    b.step(CentralEvent::AdapterAcquired { available: true });
    assert_eq!(
        b.step(CentralEvent::ScanCompleted { names: names(&[Some("Speaker"), None, Some("ch-8")]) }),
        CentralAction::Stop { disconnect: false }
    );
    assert_eq!(b.state, CentralState::Failed(BridgeError::PeripheralNotFound));
    assert_eq!(b.step(CentralEvent::ConnectCompleted { ok: true }), CentralAction::Nothing);
}

#[test]
fn empty_scan_fails_with_peripheral_not_found() {
    let mut b = CentralBridge::new(config());
    b.step(CentralEvent::AdapterAcquired { available: true });
    assert_eq!(b.step(CentralEvent::ScanCompleted { names: vec![] }), CentralAction::Stop { disconnect: false });
    assert_eq!(b.state, CentralState::Failed(BridgeError::PeripheralNotFound));
}

#[test]
fn missing_adapter() {
    let mut b = CentralBridge::new(config());
    assert_eq!(b.step(CentralEvent::AdapterAcquired { available: false }), CentralAction::Stop { disconnect: false });
    assert_eq!(b.state, CentralState::Failed(BridgeError::AdapterUnavailable));
}

#[test]
fn failed_connect() {
    let mut b = CentralBridge::new(config());
    b.step(CentralEvent::AdapterAcquired { available: true });
    b.step(CentralEvent::ScanCompleted { names: names(&[Some("CH-8")]) });
    assert_eq!(b.step(CentralEvent::ConnectCompleted { ok: false }), CentralAction::Stop { disconnect: false });
    assert_eq!(b.state, CentralState::Failed(BridgeError::ConnectionFailed));
}

#[test]
fn missing_characteristic() {
    let mut b = CentralBridge::new(config());
    b.step(CentralEvent::AdapterAcquired { available: true });
    b.step(CentralEvent::ScanCompleted { names: names(&[Some("CH-8")]) });
    b.step(CentralEvent::ConnectCompleted { ok: true });
    assert_eq!(
        b.step(CentralEvent::DiscoveryCompleted { characteristics: vec![OTHER_UUID] }),
        CentralAction::Stop { disconnect: true }
    );
    assert_eq!(b.state, CentralState::Failed(BridgeError::CharacteristicNotFound));
}

#[test]
fn write_failure_is_fatal() {
    let mut b = ready_bridge();
    b.step(CentralEvent::EventReceived { payload: Some(vec![0x80, 0x3C, 0x00]) });
    assert_eq!(b.step(CentralEvent::WriteCompleted { ok: false }), CentralAction::Stop { disconnect: true });
    assert_eq!(b.state, CentralState::Failed(BridgeError::WriteFailure));
}

#[test]
fn source_closed_ends_gracefully() {
    let mut b = ready_bridge();
    assert_eq!(b.step(CentralEvent::EventReceived { payload: None }), CentralAction::Stop { disconnect: true });
    assert_eq!(b.state, CentralState::Closed);
}

#[test]
fn empty_event_is_skipped() {
    let mut b = ready_bridge();
    assert_eq!(b.step(CentralEvent::EventReceived { payload: Some(vec![]) }), CentralAction::ReceiveEvent);
    assert_eq!(b.state, CentralState::Ready);
}

#[test]
fn cancel_disconnects_only_when_connected() {
    let mut b = ready_bridge();
    assert_eq!(b.step(CentralEvent::Cancelled), CentralAction::Stop { disconnect: true });
    assert_eq!(b.state, CentralState::Closed);
    let mut b = CentralBridge::new(config());
    b.step(CentralEvent::AdapterAcquired { available: true });
    assert_eq!(b.step(CentralEvent::Cancelled), CentralAction::Stop { disconnect: false });
    assert_eq!(b.step(CentralEvent::Cancelled), CentralAction::Nothing);
}

#[test]
fn find_peripheral_takes_first_match() {
    let rule = NameRule { exact: false, ignore_ascii_case: false };
    assert_eq!(find_peripheral(&names(&[None, Some("a CH-8"), Some("CH-8")]), "CH-8", rule), Some(1));
    assert_eq!(find_peripheral(&names(&[None, Some("CH-9")]), "CH-8", rule), None);
    let exact = NameRule { exact: true, ignore_ascii_case: false };
    assert_eq!(find_peripheral(&names(&[None, Some("a CH-8"), Some("CH-8")]), "CH-8", exact), Some(2));
}
