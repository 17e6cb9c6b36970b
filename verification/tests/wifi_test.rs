use esp_fan::wifi::{wifi_step, WifiAction, WifiEvent, RETRY_MS};

#[test]
fn wifi_cycle() {
    assert_eq!(wifi_step(WifiEvent::Started), WifiAction::Scan);
    assert_eq!(wifi_step(WifiEvent::Scanned), WifiAction::Connect);
    assert_eq!(wifi_step(WifiEvent::Connected), WifiAction::WaitForConfig);
    assert_eq!(wifi_step(WifiEvent::ConfigUp), WifiAction::WaitForDisconnect);
    assert_eq!(wifi_step(WifiEvent::Disconnected), WifiAction::Pause(2000));
    assert_eq!(wifi_step(WifiEvent::Waited), WifiAction::Scan);
}

#[test]
fn wifi_failed_connect_retries() {
    assert_eq!(RETRY_MS, 2000);
    assert_eq!(wifi_step(WifiEvent::ConnectFailed), WifiAction::Pause(RETRY_MS));
    assert_eq!(wifi_step(WifiEvent::Waited), WifiAction::Scan);
}
