use ublox_short_range::command::WifiStationAction;
use ublox_short_range::error::Error;
use ublox_short_range::runner::Runner;
use ublox_short_range::socket::{Instant, SocketHandle};
use ublox_short_range::stack::UbloxClient;
use ublox_short_range::station::{
    Authentication, ConnectionOptions, IPv4Mode, WifiConnectionError, WifiStationConfig,
    DEFAULT_ADDRESS, DEFAULT_SUBNET,
};
use ublox_short_range::wifi::{WiFiState, WifiLinkConnected, Urc};

#[test]
fn connect_plan_with_password_and_static_address() {
    let runner = Runner::new();
    let options = ConnectionOptions::new()
        .ssid(b"home".to_vec())
        .password(b"secret".to_vec())
        .ip_address(0x0A00_0002);
    assert_eq!(options.subnet, Some(DEFAULT_SUBNET));
    assert_eq!(options.gateway, Some(DEFAULT_ADDRESS));
    let deactivate = Runner::station_deactivate(&options);
    assert_eq!(deactivate.config_id, 0);
    assert_eq!(deactivate.action, WifiStationAction::Deactivate);
    let cmds = runner.station_config(&options).unwrap();
    assert_eq!(cmds.len(), 7);
    assert!(matches!(cmds[0].config_param, WifiStationConfig::IPv4Mode(IPv4Mode::Static)));
    assert!(matches!(cmds[1].config_param, WifiStationConfig::IPv4Address(0x0A00_0002)));
    assert!(matches!(cmds[2].config_param, WifiStationConfig::SubnetMask(DEFAULT_SUBNET)));
    assert!(matches!(cmds[3].config_param, WifiStationConfig::DefaultGateway(DEFAULT_ADDRESS)));
    match &cmds[4].config_param {
        WifiStationConfig::SSID(s) => assert_eq!(s, b"home"),
        _ => panic!("expected the SSID"),
    }
    assert!(matches!(cmds[5].config_param, WifiStationConfig::Authentication(Authentication::WpaWpa2Psk)));
    match &cmds[6].config_param {
        WifiStationConfig::WpaPskOrPassphrase(p) => assert_eq!(p, b"secret"),
        _ => panic!("expected the passphrase"),
    }
    assert!(cmds.iter().all(|c| c.config_id == 0));
}

#[test]
fn connect_plan_open_network() {
    let runner = Runner::new();
    let mut options = ConnectionOptions::new().ssid(b"cafe".to_vec());
    options.config_id = Some(2);
    let cmds = runner.station_config(&options).unwrap();
    assert_eq!(cmds.len(), 1);
    assert_eq!(cmds[0].config_id, 2);
}

#[test]
fn connect_waits_for_deactivation() {
    let mut runner = Runner::new();
    runner.handle_urc(Urc::WifiLinkConnected(WifiLinkConnected {
        connection_id: 0,
        bssid: vec![],
        channel: 1,
    }));
    let options = ConnectionOptions::new().ssid(b"x".to_vec());
    assert_eq!(
        runner.station_config(&options).err(),
        Some(WifiConnectionError::WaitingForWifiDeactivation)
    );
    let leave = runner.station_disconnect().unwrap().unwrap();
    assert_eq!(leave.action, WifiStationAction::Deactivate);
}

#[test]
fn activate_records_a_searching_connection() {
    let mut runner = Runner::new();
    assert_eq!(runner.station_disconnect(), Err(WifiConnectionError::FailedToDisconnect));
    let act = runner.station_activate(3);
    assert_eq!(act.action, WifiStationAction::Activate);
    let con = runner.wifi_connection.as_ref().unwrap();
    assert_eq!(con.wifi_state, WiFiState::NotConnected);
    assert_eq!(con.config_id, 3);
    assert!(con.is_station());
}

#[test]
fn subnet_and_gateway_defaults() {
    let o = ConnectionOptions::new().subnet_address(0xFFFF_0000);
    assert_eq!(o.ip, Some(DEFAULT_ADDRESS));
    assert_eq!(o.gateway, Some(DEFAULT_ADDRESS));
    let o = ConnectionOptions::new().gateway_address(0x0A00_0001);
    assert_eq!(o.ip, Some(DEFAULT_ADDRESS));
    assert_eq!(o.subnet, Some(DEFAULT_SUBNET));
}

#[test]
fn socket_errors_retry_and_drop() {
    let mut client = UbloxClient::new(2, 8);
    let h = client.tcp_open(Instant { millis: 0 }).unwrap();
    assert!(client.handle_socket_error(Error::Timeout, Some(h), 0));
    assert!(client.handle_socket_error(Error::Timeout, Some(h), 1));
    assert!(!client.handle_socket_error(Error::Timeout, Some(h), 2));
    assert_eq!(client.sockets.len(), 1);
    assert!(!client.handle_socket_error(Error::InvalidResponse, Some(h), 0));
    assert_eq!(client.sockets.len(), 0);
    assert!(!client.handle_socket_error(Error::InvalidResponse, Some(SocketHandle(1)), 0));
}
