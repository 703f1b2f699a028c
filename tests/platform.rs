use piccolo::a2dp::{
    A2dpConnectionState, A2dpError, ConnectAttempt, ConnectionState, DataRequest, ESP32A2DP,
};
use piccolo::bluetooth::{BtError, BtMode, Discovery, ESP32Bluetooth};
use piccolo::esp32::{
    nvs_erase_and_retry, Esp32, NvsAction, NvsError, ESP_ERR_NVS_NEW_VERSION_FOUND,
    ESP_ERR_NVS_NO_FREE_PAGES,
};
use piccolo::lifecycle::Stage;
use piccolo::uuids::Bluetooth16bitUUIDEnum;

#[test]
fn flash_store_is_counted() {
    let mut esp = Esp32::new();
    assert_eq!(esp.nvs_users(), 0);
    assert_eq!(esp.nvs_deinit(), Err(NvsError::NotInitialized));
    assert_eq!(esp.nvs_init_action(), NvsAction::InitFlash);
    assert_eq!(esp.nvs_init(), Ok(()));
    assert_eq!(esp.nvs_init_action(), NvsAction::Nothing);
    assert_eq!(esp.nvs_init(), Ok(()));
    assert_eq!(esp.nvs_users(), 2);
    assert_eq!(esp.nvs_deinit(), Ok(NvsAction::Nothing));
    assert_eq!(esp.nvs_deinit(), Ok(NvsAction::DeinitFlash));
    assert_eq!(esp.nvs_users(), 0);
}

#[test]
fn flash_failures_that_erase() {
    assert!(nvs_erase_and_retry(ESP_ERR_NVS_NO_FREE_PAGES));
    assert!(nvs_erase_and_retry(ESP_ERR_NVS_NEW_VERSION_FOUND));
    assert!(!nvs_erase_and_retry(0x1101));
    assert!(!nvs_erase_and_retry(-1));
}

#[test]
fn bluetooth_stack_uses_the_flash_store() {
    let mut esp = Esp32::new();
    let bt = ESP32Bluetooth::new(true, true);
    assert_eq!(bt.unused_mode(), None);
    assert_eq!(bt.post_deinit(&mut esp), Err(BtError::Nvs(NvsError::NotInitialized)));
    assert_eq!(bt.pre_init(&mut esp), Ok(()));
    assert_eq!(esp.nvs_users(), 1);
    assert_eq!(bt.post_deinit(&mut esp), Ok(NvsAction::DeinitFlash));
    assert_eq!(ESP32Bluetooth::new(false, true).unused_mode(), Some(BtMode::ClassicBt));
    assert_eq!(ESP32Bluetooth::new(true, false).unused_mode(), Some(BtMode::Ble));
    assert_eq!(ESP32Bluetooth::new(false, false).unused_mode(), Some(BtMode::ClassicBt));
}

#[test]
fn one_discovery_at_a_time() {
    let mut d: Discovery<u8> = Discovery::new();
    assert!(!d.is_scanning());
    assert_eq!(d.check_cancel(), Err(BtError::NoDiscovery));
    assert_eq!(d.check_start(), Ok(()));
    assert_eq!(d.start(1), Ok(()));
    assert_eq!(d.check_start(), Err(BtError::AlreadyScanning));
    assert_eq!(d.start(2), Err(BtError::AlreadyScanning));
    assert_eq!(d.channel(), Some(&1));
    assert_eq!(d.check_cancel(), Ok(()));
    assert_eq!(d.stopped(), Some(1));
    assert_eq!(d.stopped(), None);
    assert_eq!(d.channel(), None);
}

#[test]
fn connection_events() {
    let mut s = ConnectionState::new();
    assert_eq!(s.state, A2dpConnectionState::Disconnected);
    assert_eq!(s.apply_event(1, 5), Ok(()));
    assert_eq!(s, ConnectionState { state: A2dpConnectionState::Connecting, disconnect_reason: 0 });
    assert_eq!(s.apply_event(0, 1), Ok(()));
    assert_eq!(s, ConnectionState { state: A2dpConnectionState::Disconnected, disconnect_reason: 1 });
    assert_eq!(s.apply_event(3, 0), Ok(()));
    assert_eq!(s.disconnect_reason, 1);
    assert_eq!(s.apply_event(7, 0), Err(A2dpError::InvalidConnectionState(7)));
    assert_eq!(s.state, A2dpConnectionState::Disconnecting);
    assert_eq!(A2dpConnectionState::from_code(2), Some(A2dpConnectionState::Connected));
}

#[test]
fn connect_attempt_outcomes() {
    let connecting = ConnectionState { state: A2dpConnectionState::Connecting, disconnect_reason: 0 };
    let connected = ConnectionState { state: A2dpConnectionState::Connected, disconnect_reason: 0 };
    let dropped = ConnectionState { state: A2dpConnectionState::Disconnected, disconnect_reason: 1 };

    let mut a = ConnectAttempt::new();
    // a disconnected state before "connecting" is not the outcome
    assert_eq!(a.on_state(dropped), None);
    assert_eq!(a, ConnectAttempt::AwaitingConnecting);
    assert_eq!(a.on_state(connecting), None);
    assert_eq!(a, ConnectAttempt::Connecting);
    assert_eq!(a.on_state(connecting), None);
    assert_eq!(a.on_state(connected), Some(Ok(())));

    let mut b = ConnectAttempt::new();
    b.on_state(connecting);
    assert_eq!(b.on_state(dropped), Some(Err(A2dpError::Disconnected(1))));
}

#[test]
fn data_callback_requests() {
    assert_eq!(ESP32A2DP::data_request(-1), DataRequest::Reply(0));
    assert_eq!(ESP32A2DP::data_request(-512), DataRequest::Reply(-512));
    assert_eq!(ESP32A2DP::data_request(512), DataRequest::Read(256));
    assert_eq!(ESP32A2DP::data_request(5), DataRequest::Read(2));
    assert_eq!(ESP32A2DP::data_request(0), DataRequest::Read(0));
    assert_eq!(ESP32A2DP::data_reply(256), 512);
    assert_eq!(ESP32A2DP::media_ack_result(0), Ok(()));
    assert_eq!(ESP32A2DP::media_ack_result(1), Err(A2dpError::Media(1)));
    let _profile = ESP32A2DP::new();
}

#[test]
fn uuid_numbers_and_stages() {
    assert_eq!(Bluetooth16bitUUIDEnum::AdvancedAudioDistribution.value(), 0x110d);
    assert_eq!(Bluetooth16bitUUIDEnum::AudioSink.value(), 0x110b);
    assert_eq!(Bluetooth16bitUUIDEnum::HeadsetHS.value(), 0x1131);
    assert_eq!(Stage::Boot.next(), Stage::WifiConnect);
    assert_eq!(Stage::WifiConnect.next(), Stage::Playback);
    assert_eq!(Stage::Playback.next(), Stage::Boot);
}
