use ublox_short_range::command::{EchoOn, SetEcho, SetRS232Settings, BaudRate};
use ublox_short_range::error::Error;
use ublox_short_range::runner::{
    InitAction, InitCommand, InitEvent, InitPhase, NetworkStatusReport, Runner, UrcAction,
};
use ublox_short_range::wifi::{
    Band, Channel, DisconnectReason, HotspotOptions, NetworkUp, WiFiState, WifiConnection,
    WifiLinkConnected, WifiLinkDisconnected, WifiMode, WifiNetwork, Urc,
};

fn link_connected() -> Urc {
    Urc::WifiLinkConnected(WifiLinkConnected {
        connection_id: 0,
        bssid: b"32A8B05AD18D".to_vec(),
        channel: 6,
    })
}

fn good_report() -> NetworkStatusReport {
    NetworkStatusReport {
        is_wifi_station: true,
        ipv4_gateway: Some(0xC0A8_0101),
        ipv6_link_local: Some(0xFE80_0000_0000_0000_0000_0000_0000_0001),
    }
}

#[test]
fn link_needs_the_network_layer() {
    let mut runner = Runner::new();
    assert_eq!(runner.handle_urc(link_connected()), UrcAction::Nothing);
    assert!(!runner.link_up);
    let con = runner.wifi_connection.as_ref().unwrap();
    assert_eq!(con.wifi_state, WiFiState::Connected);
    assert_eq!(con.network.channel, 6);
    assert_eq!(con.config_id, 255);
    assert!(con.activated);
    assert_eq!(
        runner.handle_urc(Urc::NetworkUp(NetworkUp { interface_id: 0 })),
        UrcAction::RefreshNetworkStatus(0)
    );
    assert_eq!(runner.apply_network_status(good_report()), Ok(()));
    assert!(runner.link_up);
    assert!(runner.is_link_up());
}

#[test]
fn unspecified_address_keeps_the_link_down() {
    let mut runner = Runner::new();
    runner.handle_urc(link_connected());
    let report = NetworkStatusReport { ipv6_link_local: Some(0), ..good_report() };
    assert_eq!(runner.apply_network_status(report), Ok(()));
    assert!(!runner.link_up);
    let report = NetworkStatusReport { ipv4_gateway: None, ..good_report() };
    assert_eq!(runner.apply_network_status(report), Ok(()));
    assert!(!runner.link_up);
}

#[test]
fn other_interface_is_a_network_error() {
    let mut runner = Runner::new();
    runner.handle_urc(link_connected());
    let report = NetworkStatusReport { is_wifi_station: false, ..good_report() };
    assert_eq!(runner.apply_network_status(report), Err(Error::Network));
    assert!(!runner.link_up);
}

#[test]
fn disconnect_reasons() {
    let mut runner = Runner::new();
    runner.handle_urc(link_connected());
    runner.apply_network_status(good_report()).unwrap();
    assert!(runner.link_up);
    let ev = |reason| Urc::WifiLinkDisconnected(WifiLinkDisconnected { connection_id: 0, reason });
    assert_eq!(runner.handle_urc(ev(DisconnectReason::SecurityProblems)), UrcAction::SecurityProblems);
    assert!(runner.link_up);
    assert_eq!(runner.handle_urc(ev(DisconnectReason::OutOfRange)), UrcAction::Nothing);
    assert_eq!(runner.wifi_connection.as_ref().unwrap().wifi_state, WiFiState::NotConnected);
    assert!(!runner.link_up);
    runner.handle_urc(ev(DisconnectReason::NetworkDisabled));
    assert_eq!(runner.wifi_connection.as_ref().unwrap().wifi_state, WiFiState::Inactive);
    assert_eq!(runner.handle_urc(Urc::StartUp), UrcAction::UnexpectedRestart);
}

#[test]
fn init_sequence_runs_to_done() {
    let mut phase = InitPhase::Start;
    let mut actions = Vec::new();
    for _ in 0..16 {
        let (next, action) = phase.next(InitEvent::Completed);
        phase = next;
        actions.push(action);
        if action == InitAction::Done {
            break;
        }
    }
    assert_eq!(
        actions,
        vec![
            InitAction::PulseReset(100),
            InitAction::AwaitStartup(4000),
            InitAction::SwitchToEdm(4000),
            InitAction::Delay(50),
            InitAction::Send(InitCommand::SetEcho(SetEcho { on: EchoOn::On })),
            InitAction::Send(InitCommand::SetRS232Settings(SetRS232Settings::driver_default())),
            InitAction::Send(InitCommand::StoreCurrentConfig(ublox_short_range::command::StoreCurrentConfig)),
            InitAction::Send(InitCommand::RebootDCE(ublox_short_range::command::RebootDCE)),
            InitAction::AwaitStartup(10000),
            InitAction::SwitchToEdm(4000),
            InitAction::Delay(50),
            InitAction::Send(InitCommand::SetEcho(SetEcho { on: EchoOn::On })),
            InitAction::Send(InitCommand::SoftwareVersion(ublox_short_range::command::SoftwareVersion)),
            InitAction::Done,
        ]
    );
    assert_eq!(phase, InitPhase::Ready);
    assert_eq!(SetRS232Settings::driver_default().baud_rate, BaudRate::B115200);
}

#[test]
fn init_timeout_fails() {
    let (phase, _) = InitPhase::Start.next(InitEvent::Completed);
    let (phase, _) = phase.next(InitEvent::Completed);
    assert_eq!(phase.next(InitEvent::TimedOut), (InitPhase::Failed(Error::Timeout), InitAction::Fail(Error::Timeout)));
    assert_eq!(
        InitPhase::ConfiguringSerial.next(InitEvent::Failed(Error::InvalidResponse)),
        (InitPhase::Failed(Error::InvalidResponse), InitAction::Fail(Error::InvalidResponse))
    );
}

#[test]
fn connection_roles() {
    let net = WifiNetwork::new_station(b"AA".to_vec(), 1);
    let con = WifiConnection::new(net, WiFiState::NotConnected, 0);
    assert!(con.is_station());
    assert!(!con.is_access_point());
    assert!(!con.is_connected());
    assert!(!con.activated);
    let mut con = con.activate();
    assert!(con.activated);
    con.deactivate();
    assert!(!con.activated);
    let ap = WifiNetwork { bssid: vec![], channel: 1, mode: WifiMode::AccessPoint };
    assert!(WifiConnection::new(ap, WiFiState::Inactive, 1).is_access_point());
}

#[test]
fn hotspot_options_builders() {
    let opts = HotspotOptions::new();
    assert_eq!(opts.channel, Some(Channel::One));
    assert_eq!(opts.band, Some(Band::Bg));
    let opts = opts.channel(Channel::Six).band(Band::A);
    assert_eq!(opts.channel, Some(Channel::Six));
    assert_eq!(opts.band, Some(Band::A));
    assert_eq!(Channel::Six.number(), 6);
}
