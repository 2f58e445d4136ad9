//! The Wi-Fi connection descriptor, hotspot options and the events of the
//! module that drive the link state.
use vstd::prelude::*;

use crate::socket::{ChannelId, PeerHandle};

verus! {

/// The link-layer state of the Wi-Fi connection.
#[derive(Debug, Clone, Copy, PartialEq, Eq, Structural)]
pub enum WiFiState {
    /// The radio is off or the configuration is deactivated.
    Inactive,
    /// Activated and searching for the network.
    NotConnected,
    /// The link layer is up.
    Connected,
}

/// Whether the device is attached to a network and has an address.
#[derive(Debug, Clone, Copy, PartialEq, Eq, Structural)]
pub enum NetworkState {
    Attached,
    AlmostAttached,
    Unattached,
}

/// The role of the module on a network.
#[derive(Debug, Clone, Copy, PartialEq, Eq, Structural)]
pub enum WifiMode {
    Station,
    AccessPoint,
}

/// The network of a connection.
#[derive(Debug, Clone)]
pub struct WifiNetwork {
    /// The BSSID as the module reports it.
    pub bssid: Vec<u8>,
    pub channel: u8,
    pub mode: WifiMode,
}

impl WifiNetwork {
    /// A station network with the given BSSID and channel.
    pub fn new_station(bssid: Vec<u8>, channel: u8) -> (r: Self)
        ensures
            r == (WifiNetwork { bssid, channel, mode: WifiMode::Station }),
    {
        WifiNetwork { bssid, channel, mode: WifiMode::Station }
    }
}

/// The descriptor of the Wi-Fi connection.
pub struct WifiConnection {
    /// The link-layer state on the module.
    pub wifi_state: WiFiState,
    pub network_state: NetworkState,
    /// Whether the IP layer is ready.
    pub network_up: bool,
    pub network: WifiNetwork,
    /// The configuration slot, 0 to 9; 255 when it is not known.
    pub config_id: u8,
    /// Whether the driver activated the configuration.
    pub activated: bool,
}

impl WifiConnection {
    /// Whether the link is up: the link layer is connected and the IP layer
    /// is ready.
    pub open spec fn link_up(&self) -> bool {
        self.wifi_state == WiFiState::Connected && self.network_up
    }

    /// A descriptor of `network` in `wifi_state`, unattached, with the IP
    /// layer down and not activated.
    pub fn new(network: WifiNetwork, wifi_state: WiFiState, config_id: u8) -> (r: Self)
        ensures
            r.wifi_state == wifi_state,
            r.network_state == NetworkState::Unattached,
            !r.network_up,
            r.network == network,
            r.config_id == config_id,
            !r.activated,
    {
        WifiConnection {
            wifi_state,
            network_state: NetworkState::Unattached,
            network_up: false,
            network,
            config_id,
            activated: false,
        }
    }

    /// Whether the device is attached and the link layer is connected.
    pub fn is_connected(&self) -> (r: bool)
        ensures
            r == (self.network_state == NetworkState::Attached && self.wifi_state == WiFiState::Connected),
    {
        self.network_state == NetworkState::Attached && self.wifi_state == WiFiState::Connected
    }

    /// Whether the module is a station on the network.
    pub fn is_station(&self) -> (r: bool)
        ensures
            r == (self.network.mode == WifiMode::Station),
    {
        self.network.mode == WifiMode::Station
    }

    /// Whether the module is the access point of the network.
    pub fn is_access_point(&self) -> (r: bool)
        ensures
            r == (self.network.mode != WifiMode::Station),
    {
        !self.is_station()
    }

    /// The descriptor, activated.
    pub fn activate(self) -> (r: Self)
        ensures
            r == (WifiConnection { activated: true, ..self }),
    {
        let mut s = self;
        s.activated = true;
        s
    }

    /// Marks the descriptor not activated.
    pub fn deactivate(&mut self)
        ensures
            *final(self) == (WifiConnection { activated: false, ..*old(self) }),
    {
        self.activated = false;
    }
}

/// Why the module lost the Wi-Fi link.
#[derive(Debug, Clone, Copy, PartialEq, Eq, Structural)]
pub enum DisconnectReason {
    Unknown,
    RemoteClose,
    OutOfRange,
    Roaming,
    SecurityProblems,
    NetworkDisabled,
}

/// The link layer came up (`+UUWLE`).
#[derive(Debug, Clone)]
pub struct WifiLinkConnected {
    pub connection_id: u32,
    pub bssid: Vec<u8>,
    pub channel: u8,
}

/// The link layer went down (`+UUWLD`).
#[derive(Debug, Clone, Copy, PartialEq, Eq, Structural)]
pub struct WifiLinkDisconnected {
    pub connection_id: u32,
    pub reason: DisconnectReason,
}

/// The access point came up (`+UUWAPU`).
#[derive(Debug, Clone, Copy, PartialEq, Eq, Structural)]
pub struct WifiAPUp {
    pub connection_id: u32,
}

/// The access point went down (`+UUWAPD`).
#[derive(Debug, Clone, Copy, PartialEq, Eq, Structural)]
pub struct WifiAPDown {
    pub connection_id: u32,
}

/// A station joined the access point (`+UUWAPSTAC`).
#[derive(Debug, Clone)]
pub struct WifiAPStationConnected {
    pub station_id: u32,
    pub mac_addr: Vec<u8>,
}

/// A station left the access point (`+UUWAPSTAD`).
#[derive(Debug, Clone, Copy, PartialEq, Eq, Structural)]
pub struct WifiAPStationDisconnected {
    pub station_id: u32,
}

/// A network interface came up (`+UUNU`).
#[derive(Debug, Clone, Copy, PartialEq, Eq, Structural)]
pub struct NetworkUp {
    pub interface_id: u8,
}

/// A network interface went down (`+UUND`).
#[derive(Debug, Clone, Copy, PartialEq, Eq, Structural)]
pub struct NetworkDown {
    pub interface_id: u8,
}

/// A peer connection was set up (`+UUDPC`), and with it a data channel.
#[derive(Debug, Clone, Copy, PartialEq, Eq, Structural)]
pub struct PeerConnected {
    pub handle: PeerHandle,
    pub channel_id: ChannelId,
}

/// A peer connection was closed (`+UUDPD`).
#[derive(Debug, Clone, Copy, PartialEq, Eq, Structural)]
pub struct PeerDisconnected {
    pub handle: PeerHandle,
}

/// An unsolicited event of the module, as the driver acts on it.
#[derive(Debug, Clone)]
pub enum Urc {
    StartUp,
    WifiLinkConnected(WifiLinkConnected),
    WifiLinkDisconnected(WifiLinkDisconnected),
    WifiAPUp(WifiAPUp),
    WifiAPDown(WifiAPDown),
    WifiAPStationConnected(WifiAPStationConnected),
    WifiAPStationDisconnected(WifiAPStationDisconnected),
    NetworkUp(NetworkUp),
    NetworkDown(NetworkDown),
    PeerConnected(PeerConnected),
    PeerDisconnected(PeerDisconnected),
}

/// The channel of a wireless hotspot.
#[derive(Debug, Clone, Copy, PartialEq, Eq, Structural)]
pub enum Channel {
    One,
    Two,
    Three,
    Four,
    Five,
    Six,
}

/// The number of a hotspot channel.
pub open spec fn channel_number(c: Channel) -> u8 {
    match c {
        Channel::One => 1,
        Channel::Two => 2,
        Channel::Three => 3,
        Channel::Four => 4,
        Channel::Five => 5,
        Channel::Six => 6,
    }
}

impl Channel {
    /// The channel's number.
    pub fn number(&self) -> (r: u8)
        ensures
            r == channel_number(*self),
    {
        match self {
            Channel::One => 1,
            Channel::Two => 2,
            Channel::Three => 3,
            Channel::Four => 4,
            Channel::Five => 5,
            Channel::Six => 6,
        }
    }
}

/// The band of a wireless hotspot.
#[derive(Debug, Clone, Copy, PartialEq, Eq, Structural)]
pub enum Band {
    A,
    Bg,
}

/// The options of a wireless hotspot.
#[derive(Debug, Clone, Copy, PartialEq, Eq, Structural)]
pub struct HotspotOptions {
    pub channel: Option<Channel>,
    pub band: Option<Band>,
}

impl HotspotOptions {
    /// Channel one on band BG.
    pub fn new() -> (r: Self)
        ensures
            r == (HotspotOptions { channel: Some(Channel::One), band: Some(Band::Bg) }),
    {
        HotspotOptions { channel: Some(Channel::One), band: Some(Band::Bg) }
    }

    /// The options with `channel`.
    pub fn channel(self, channel: Channel) -> (r: Self)
        ensures
            r == (HotspotOptions { channel: Some(channel), ..self }),
    {
        HotspotOptions { channel: Some(channel), ..self }
    }

    /// The options with `band`.
    pub fn band(self, band: Band) -> (r: Self)
        ensures
            r == (HotspotOptions { band: Some(band), ..self }),
    {
        HotspotOptions { band: Some(band), ..self }
    }
}

} // verus!
