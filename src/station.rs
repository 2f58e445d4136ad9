//! Joining and leaving a Wi-Fi network as a station: the connection
//! options and the configuration commands they turn into.
use vstd::prelude::*;

use crate::command::{ExecWifiStationAction, WifiStationAction};
use crate::edm::copy_range;
use crate::runner::Runner;
use crate::wifi::{WiFiState, WifiConnection, WifiMode, WifiNetwork};

verus! {

/// How the station gets its IPv4 address.
#[derive(Debug, Clone, Copy, PartialEq, Eq, Structural)]
pub enum IPv4Mode {
    Static,
    Dhcp,
}

/// The authentication of a station configuration.
#[derive(Debug, Clone, Copy, PartialEq, Eq, Structural)]
pub enum Authentication {
    Open,
    WpaWpa2Psk,
    Leap,
    Peap,
    EapTls,
}

/// A parameter of a Wi-Fi station configuration.
#[derive(Debug, Clone)]
pub enum WifiStationConfig {
    IPv4Mode(IPv4Mode),
    IPv4Address(u32),
    SubnetMask(u32),
    DefaultGateway(u32),
    SSID(Vec<u8>),
    Authentication(Authentication),
    WpaPskOrPassphrase(Vec<u8>),
}

/// A station configuration parameter with its texts as sequences.
pub enum StationParam {
    IPv4Mode(IPv4Mode),
    IPv4Address(u32),
    SubnetMask(u32),
    DefaultGateway(u32),
    SSID(Seq<u8>),
    Authentication(Authentication),
    WpaPskOrPassphrase(Seq<u8>),
}

impl View for WifiStationConfig {
    type V = StationParam;

    open spec fn view(&self) -> StationParam {
        match self {
            WifiStationConfig::IPv4Mode(m) => StationParam::IPv4Mode(*m),
            WifiStationConfig::IPv4Address(a) => StationParam::IPv4Address(*a),
            WifiStationConfig::SubnetMask(a) => StationParam::SubnetMask(*a),
            WifiStationConfig::DefaultGateway(a) => StationParam::DefaultGateway(*a),
            WifiStationConfig::SSID(s) => StationParam::SSID(s@),
            WifiStationConfig::Authentication(a) => StationParam::Authentication(*a),
            WifiStationConfig::WpaPskOrPassphrase(p) => StationParam::WpaPskOrPassphrase(p@),
        }
    }
}

/// Sets a parameter of a station configuration (`+UWSC`).
#[derive(Debug, Clone)]
pub struct SetWifiStationConfig {
    pub config_id: u8,
    pub config_param: WifiStationConfig,
}

/// The subnet mask that a static address gets when none is given:
/// 255.255.255.0.
pub const DEFAULT_SUBNET: u32 = 0xFFFF_FF00;

/// The address that a static configuration gets for a missing address or
/// gateway: 192.168.2.1.
pub const DEFAULT_ADDRESS: u32 = 0xC0A8_0201;

/// How to join a network.
#[derive(Debug, Clone)]
pub struct ConnectionOptions {
    pub ssid: Vec<u8>,
    pub password: Option<Vec<u8>>,
    pub ip: Option<u32>,
    pub subnet: Option<u32>,
    pub gateway: Option<u32>,
    /// The configuration slot; 0 when none is given.
    pub config_id: Option<u8>,
}

impl ConnectionOptions {
    /// No SSID, no password, no static address, no slot.
    pub fn new() -> (r: Self)
        ensures
            r.ssid@ == Seq::<u8>::empty(),
            r.password is None,
            r.ip is None,
            r.subnet is None,
            r.gateway is None,
            r.config_id is None,
    {
        ConnectionOptions { ssid: Vec::new(), password: None, ip: None, subnet: None, gateway: None, config_id: None }
    }

    /// The options with `ssid`.
    pub fn ssid(self, ssid: Vec<u8>) -> (r: Self)
        ensures
            r.ssid@ == ssid@,
            r.password == self.password,
            r.ip == self.ip,
            r.subnet == self.subnet,
            r.gateway == self.gateway,
            r.config_id == self.config_id,
    {
        ConnectionOptions { ssid, ..self }
    }

    /// The options with `password`.
    pub fn password(self, password: Vec<u8>) -> (r: Self)
        ensures
            r.ssid == self.ssid,
            r.password matches Some(p) && p@ == password@,
            r.ip == self.ip,
            r.subnet == self.subnet,
            r.gateway == self.gateway,
            r.config_id == self.config_id,
    {
        ConnectionOptions { password: Some(password), ..self }
    }

    /// The options with the static address `ip`; a missing subnet mask
    /// becomes 255.255.255.0 and a missing gateway 192.168.2.1.
    pub fn ip_address(self, ip: u32) -> (r: Self)
        ensures
            r.ssid == self.ssid,
            r.password == self.password,
            r.ip == Some(ip),
            r.subnet == Some(if let Some(s) = self.subnet { s } else { DEFAULT_SUBNET }),
            r.gateway == Some(if let Some(g) = self.gateway { g } else { DEFAULT_ADDRESS }),
            r.config_id == self.config_id,
    {
        let subnet = match self.subnet {
            Some(s) => s,
            None => DEFAULT_SUBNET,
        };
        let gateway = match self.gateway {
            Some(g) => g,
            None => DEFAULT_ADDRESS,
        };
        ConnectionOptions { ip: Some(ip), subnet: Some(subnet), gateway: Some(gateway), ..self }
    }

    /// The options with the subnet mask `subnet`; a missing address and a
    /// missing gateway become 192.168.2.1.
    pub fn subnet_address(self, subnet: u32) -> (r: Self)
        ensures
            r.ssid == self.ssid,
            r.password == self.password,
            r.ip == Some(if let Some(a) = self.ip { a } else { DEFAULT_ADDRESS }),
            r.subnet == Some(subnet),
            r.gateway == Some(if let Some(g) = self.gateway { g } else { DEFAULT_ADDRESS }),
            r.config_id == self.config_id,
    {
        let ip = match self.ip {
            Some(a) => a,
            None => DEFAULT_ADDRESS,
        };
        let gateway = match self.gateway {
            Some(g) => g,
            None => DEFAULT_ADDRESS,
        };
        ConnectionOptions { ip: Some(ip), subnet: Some(subnet), gateway: Some(gateway), ..self }
    }

    /// The options with the gateway `gateway`; a missing subnet mask becomes
    /// 255.255.255.0 and a missing address 192.168.2.1.
    pub fn gateway_address(self, gateway: u32) -> (r: Self)
        ensures
            r.ssid == self.ssid,
            r.password == self.password,
            r.ip == Some(if let Some(a) = self.ip { a } else { DEFAULT_ADDRESS }),
            r.subnet == Some(if let Some(s) = self.subnet { s } else { DEFAULT_SUBNET }),
            r.gateway == Some(gateway),
            r.config_id == self.config_id,
    {
        let ip = match self.ip {
            Some(a) => a,
            None => DEFAULT_ADDRESS,
        };
        let subnet = match self.subnet {
            Some(s) => s,
            None => DEFAULT_SUBNET,
        };
        ConnectionOptions { ip: Some(ip), subnet: Some(subnet), gateway: Some(gateway), ..self }
    }
}

/// The configuration slot of the options: 0 when none is given.
pub open spec fn config_slot(o: ConnectionOptions) -> u8 {
    match o.config_id {
        Some(id) => id,
        None => 0,
    }
}

/// The parameters that joining with `o` sets, in order: static IPv4 mode
/// if any static address is given, the address, mask and gateway that are
/// given, the SSID, and with a password WPA/WPA2-PSK and the passphrase.
pub open spec fn config_plan(o: ConnectionOptions) -> Seq<StationParam> {
    (if o.ip is Some || o.subnet is Some || o.gateway is Some {
        seq![StationParam::IPv4Mode(IPv4Mode::Static)]
    } else {
        Seq::empty()
    }) + (match o.ip {
        Some(a) => seq![StationParam::IPv4Address(a)],
        None => Seq::empty(),
    }) + (match o.subnet {
        Some(a) => seq![StationParam::SubnetMask(a)],
        None => Seq::empty(),
    }) + (match o.gateway {
        Some(a) => seq![StationParam::DefaultGateway(a)],
        None => Seq::empty(),
    }) + seq![StationParam::SSID(o.ssid@)] + (match o.password {
        Some(p) => seq![
            StationParam::Authentication(Authentication::WpaWpa2Psk),
            StationParam::WpaPskOrPassphrase(p@),
        ],
        None => Seq::empty(),
    })
}

/// The parameters of a list of configuration commands.
pub open spec fn params_of(cmds: Seq<SetWifiStationConfig>) -> Seq<StationParam> {
    cmds.map_values(|c: SetWifiStationConfig| c.config_param@)
}

/// Errors of joining and leaving a network.
#[derive(Debug, Clone, Copy, PartialEq, Eq, Structural)]
pub enum WifiConnectionError {
    /// The station configuration is still active.
    WaitingForWifiDeactivation,
    /// There is no connection to leave.
    FailedToDisconnect,
}

/// Appends a command that sets `param` in slot `id`.
fn push_param(out: &mut Vec<SetWifiStationConfig>, id: u8, param: WifiStationConfig)
    ensures
        final(out)@.len() == old(out)@.len() + 1,
        params_of(final(out)@) == params_of(old(out)@) + seq![param@],
        forall|i: int| 0 <= i < old(out)@.len() ==> final(out)@[i] == old(out)@[i],
        final(out)@[old(out)@.len() as int].config_id == id,
{
    let ghost before = out@;
    out.push(SetWifiStationConfig { config_id: id, config_param: param });
    assert(params_of(out@) =~= params_of(before) + seq![param@]);
}

impl Runner {
    /// The station action that starts joining a network: deactivate the
    /// configuration slot of `options`.
    pub fn station_deactivate(options: &ConnectionOptions) -> (r: ExecWifiStationAction)
        ensures
            r == (ExecWifiStationAction { config_id: config_slot(*options), action: WifiStationAction::Deactivate }),
    {
        let config_id = match options.config_id {
            Some(id) => id,
            None => 0,
        };
        ExecWifiStationAction { config_id, action: WifiStationAction::Deactivate }
    }

    /// After the deactivation: the configuration commands that join with
    /// `options`, all for its slot. `WaitingForWifiDeactivation` while the
    /// connection is not yet `Inactive`.
    pub fn station_config(&self, options: &ConnectionOptions) -> (r: Result<
        Vec<SetWifiStationConfig>,
        WifiConnectionError,
    >)
        ensures
            (self.wifi_connection matches Some(con) && con.wifi_state != WiFiState::Inactive) ==> r == Err::<
                Vec<SetWifiStationConfig>,
                WifiConnectionError,
            >(WifiConnectionError::WaitingForWifiDeactivation),
            !(self.wifi_connection matches Some(con) && con.wifi_state != WiFiState::Inactive) ==> (r matches Ok(
                cmds,
            ) && params_of(cmds@) == config_plan(*options) && forall|i: int|
                0 <= i < cmds@.len() ==> (#[trigger] cmds@[i]).config_id == config_slot(*options)),
    {
        match &self.wifi_connection {
            Some(con) => {
                if con.wifi_state != WiFiState::Inactive {
                    return Err(WifiConnectionError::WaitingForWifiDeactivation);
                }
            },
            None => {},
        }
        let id = match options.config_id {
            Some(id) => id,
            None => 0,
        };
        let mut out: Vec<SetWifiStationConfig> = Vec::new();
        assert(params_of(out@) =~= Seq::<StationParam>::empty());
        if options.ip.is_some() || options.subnet.is_some() || options.gateway.is_some() {
            push_param(&mut out, id, WifiStationConfig::IPv4Mode(IPv4Mode::Static));
        }
        if let Some(a) = options.ip {
            push_param(&mut out, id, WifiStationConfig::IPv4Address(a));
        }
        if let Some(a) = options.subnet {
            push_param(&mut out, id, WifiStationConfig::SubnetMask(a));
        }
        if let Some(a) = options.gateway {
            push_param(&mut out, id, WifiStationConfig::DefaultGateway(a));
        }
        let ssid = copy_range(options.ssid.as_slice(), 0, options.ssid.len());
        assert(ssid@ =~= options.ssid@);
        push_param(&mut out, id, WifiStationConfig::SSID(ssid));
        match &options.password {
            Some(p) => {
                push_param(&mut out, id, WifiStationConfig::Authentication(Authentication::WpaWpa2Psk));
                let pass = copy_range(p.as_slice(), 0, p.len());
                assert(pass@ =~= p@);
                push_param(&mut out, id, WifiStationConfig::WpaPskOrPassphrase(pass));
            },
            None => {},
        }
        assert(params_of(out@) =~= config_plan(*options));
        Ok(out)
    }

    /// After the configuration: records a new station connection in slot
    /// `config_id`, `NotConnected` with no BSSID on channel 0, and returns
    /// the action that activates the slot.
    pub fn station_activate(&mut self, config_id: u8) -> (r: ExecWifiStationAction)
        ensures
            r == (ExecWifiStationAction { config_id, action: WifiStationAction::Activate }),
            final(self).link_up == old(self).link_up,
            final(self).wifi_connection matches Some(con) && con.wifi_state == WiFiState::NotConnected
                && !con.network_up && con.config_id == config_id && !con.activated
                && con.network.mode == WifiMode::Station && con.network.bssid@ == Seq::<u8>::empty()
                && con.network.channel == 0,
    {
        let network = WifiNetwork::new_station(Vec::new(), 0);
        self.wifi_connection = Some(WifiConnection::new(network, WiFiState::NotConnected, config_id));
        ExecWifiStationAction { config_id, action: WifiStationAction::Activate }
    }

    /// Leaving the network: the deactivation of slot 0 while the link is
    /// connected or searching, nothing when it is inactive already.
    /// `FailedToDisconnect` when there is no connection.
    pub fn station_disconnect(&self) -> (r: Result<Option<ExecWifiStationAction>, WifiConnectionError>)
        ensures
            self.wifi_connection is None ==> r == Err::<Option<ExecWifiStationAction>, WifiConnectionError>(
                WifiConnectionError::FailedToDisconnect,
            ),
            self.wifi_connection matches Some(con) ==> r == Ok::<Option<ExecWifiStationAction>, WifiConnectionError>(
                if con.wifi_state == WiFiState::Inactive {
                    None
                } else {
                    Some(ExecWifiStationAction { config_id: 0, action: WifiStationAction::Deactivate })
                },
            ),
    {
        match &self.wifi_connection {
            Some(con) => match con.wifi_state {
                WiFiState::Inactive => Ok(None),
                _ => Ok(Some(ExecWifiStationAction { config_id: 0, action: WifiStationAction::Deactivate })),
            },
            None => Err(WifiConnectionError::FailedToDisconnect),
        }
    }
}

} // verus!
