//! The connection runner's decisions: the initialisation sequence of the
//! module, and the Wi-Fi link state that unsolicited events drive. The
//! caller performs each action (pin changes, waits, commands) and hands the
//! outcome back as an event.
use vstd::prelude::*;

use crate::command::{
    driver_serial_settings, EchoOn, RebootDCE, SetEcho, SetRS232Settings, SoftwareVersion,
    StoreCurrentConfig,
};
use crate::error::Error;
use crate::wifi::{DisconnectReason, WiFiState, WifiConnection, WifiNetwork, Urc};

verus! {

/// How long the reset line is held low, in milliseconds.
pub const RESET_HOLD_MS: u64 = 100;

/// How long to wait for the startup banner after a hard reset.
pub const STARTUP_TIMEOUT_MS: u64 = 4000;

/// How long to wait for the startup banner after a reboot.
pub const REBOOT_TIMEOUT_MS: u64 = 10000;

/// How long the switch to EDM is retried.
pub const EDM_TIMEOUT_MS: u64 = 4000;

/// The pause between two tries of the switch to EDM.
pub const EDM_RETRY_MS: u64 = 10;

/// The pause the module needs after it entered EDM.
pub const EDM_SETTLE_MS: u64 = 50;

/// The commands of the initialisation sequence.
#[derive(Debug, Clone, Copy, PartialEq, Eq, Structural)]
pub enum InitCommand {
    SetRS232Settings(SetRS232Settings),
    StoreCurrentConfig(StoreCurrentConfig),
    RebootDCE(RebootDCE),
    SetEcho(SetEcho),
    SoftwareVersion(SoftwareVersion),
}

/// What the caller is to do next during initialisation.
#[derive(Debug, Clone, Copy, PartialEq, Eq, Structural)]
pub enum InitAction {
    /// Drive the reset line low, wait this long, release it.
    PulseReset(u64),
    /// Wait for the startup banner, at most this long.
    AwaitStartup(u64),
    /// Send the switch to EDM, retrying for at most this long.
    SwitchToEdm(u64),
    /// Wait this long.
    Delay(u64),
    /// Send a command wrapped in an EDM frame.
    Send(InitCommand),
    /// The module is ready.
    Done,
    /// Initialisation failed.
    Fail(Error),
}

/// What came of the last action.
#[derive(Debug, Clone, Copy, PartialEq, Eq, Structural)]
pub enum InitEvent {
    /// The action completed (a pulse, a wait, a banner, a switch, a command).
    Completed,
    /// The bounded wait of the action expired.
    TimedOut,
    /// The command failed.
    Failed(Error),
}

/// Where the initialisation sequence stands. `rebooted` tells the second
/// round, after the soft restart, from the first.
#[derive(Debug, Clone, Copy, PartialEq, Eq, Structural)]
pub enum InitPhase {
    Start,
    Resetting,
    AwaitingStartup { rebooted: bool },
    EnteringEdm { rebooted: bool },
    Settling { rebooted: bool },
    EnablingEcho { rebooted: bool },
    ConfiguringSerial,
    StoringConfig,
    Rebooting,
    QueryingVersion,
    Ready,
    Failed(Error),
}

/// The initialisation sequence as a table: the next phase and action for a
/// phase and the outcome of its action.
///
/// Reset pulse, startup banner (4 s), switch to EDM (4 s), 50 ms pause, echo
/// on, serial settings, store configuration, reboot, startup banner (10 s),
/// switch to EDM, 50 ms pause, echo on, software version, done. A timeout
/// fails with `Timeout`, a failed command with its error.
pub open spec fn init_transition(phase: InitPhase, event: InitEvent) -> (InitPhase, InitAction) {
    match event {
        InitEvent::TimedOut => match phase {
            InitPhase::Start => (InitPhase::Resetting, InitAction::PulseReset(RESET_HOLD_MS)),
            InitPhase::Ready => (InitPhase::Ready, InitAction::Done),
            InitPhase::Failed(e) => (InitPhase::Failed(e), InitAction::Fail(e)),
            _ => (InitPhase::Failed(Error::Timeout), InitAction::Fail(Error::Timeout)),
        },
        InitEvent::Failed(e) => match phase {
            InitPhase::Start => (InitPhase::Resetting, InitAction::PulseReset(RESET_HOLD_MS)),
            InitPhase::Ready => (InitPhase::Ready, InitAction::Done),
            InitPhase::Failed(f) => (InitPhase::Failed(f), InitAction::Fail(f)),
            _ => (InitPhase::Failed(e), InitAction::Fail(e)),
        },
        InitEvent::Completed => match phase {
            InitPhase::Start => (InitPhase::Resetting, InitAction::PulseReset(RESET_HOLD_MS)),
            InitPhase::Resetting => (
                InitPhase::AwaitingStartup { rebooted: false },
                InitAction::AwaitStartup(STARTUP_TIMEOUT_MS),
            ),
            InitPhase::AwaitingStartup { rebooted } => (
                InitPhase::EnteringEdm { rebooted },
                InitAction::SwitchToEdm(EDM_TIMEOUT_MS),
            ),
            InitPhase::EnteringEdm { rebooted } => (
                InitPhase::Settling { rebooted },
                InitAction::Delay(EDM_SETTLE_MS),
            ),
            InitPhase::Settling { rebooted } => (
                InitPhase::EnablingEcho { rebooted },
                InitAction::Send(InitCommand::SetEcho(SetEcho { on: EchoOn::On })),
            ),
            InitPhase::EnablingEcho { rebooted } => if rebooted {
                (InitPhase::QueryingVersion, InitAction::Send(InitCommand::SoftwareVersion(SoftwareVersion)))
            } else {
                (InitPhase::ConfiguringSerial, InitAction::Send(InitCommand::SetRS232Settings(driver_serial_settings())))
            },
            InitPhase::ConfiguringSerial => (
                InitPhase::StoringConfig,
                InitAction::Send(InitCommand::StoreCurrentConfig(StoreCurrentConfig)),
            ),
            InitPhase::StoringConfig => (InitPhase::Rebooting, InitAction::Send(InitCommand::RebootDCE(RebootDCE))),
            InitPhase::Rebooting => (
                InitPhase::AwaitingStartup { rebooted: true },
                InitAction::AwaitStartup(REBOOT_TIMEOUT_MS),
            ),
            InitPhase::QueryingVersion => (InitPhase::Ready, InitAction::Done),
            InitPhase::Ready => (InitPhase::Ready, InitAction::Done),
            InitPhase::Failed(e) => (InitPhase::Failed(e), InitAction::Fail(e)),
        },
    }
}

impl InitPhase {
    /// The next phase and action of the initialisation sequence.
    pub fn next(self, event: InitEvent) -> (r: (InitPhase, InitAction))
        ensures
            r == init_transition(self, event),
    {
        match event {
            InitEvent::TimedOut => match self {
                InitPhase::Start => (InitPhase::Resetting, InitAction::PulseReset(RESET_HOLD_MS)),
                InitPhase::Ready => (InitPhase::Ready, InitAction::Done),
                InitPhase::Failed(e) => (InitPhase::Failed(e), InitAction::Fail(e)),
                _ => (InitPhase::Failed(Error::Timeout), InitAction::Fail(Error::Timeout)),
            },
            InitEvent::Failed(e) => match self {
                InitPhase::Start => (InitPhase::Resetting, InitAction::PulseReset(RESET_HOLD_MS)),
                InitPhase::Ready => (InitPhase::Ready, InitAction::Done),
                InitPhase::Failed(f) => (InitPhase::Failed(f), InitAction::Fail(f)),
                _ => (InitPhase::Failed(e), InitAction::Fail(e)),
            },
            InitEvent::Completed => match self {
                InitPhase::Start => (InitPhase::Resetting, InitAction::PulseReset(RESET_HOLD_MS)),
                InitPhase::Resetting => (
                    InitPhase::AwaitingStartup { rebooted: false },
                    InitAction::AwaitStartup(STARTUP_TIMEOUT_MS),
                ),
                InitPhase::AwaitingStartup { rebooted } => (
                    InitPhase::EnteringEdm { rebooted },
                    InitAction::SwitchToEdm(EDM_TIMEOUT_MS),
                ),
                InitPhase::EnteringEdm { rebooted } => (
                    InitPhase::Settling { rebooted },
                    InitAction::Delay(EDM_SETTLE_MS),
                ),
                InitPhase::Settling { rebooted } => (
                    InitPhase::EnablingEcho { rebooted },
                    InitAction::Send(InitCommand::SetEcho(SetEcho { on: EchoOn::On })),
                ),
                InitPhase::EnablingEcho { rebooted } => if rebooted {
                    (InitPhase::QueryingVersion, InitAction::Send(InitCommand::SoftwareVersion(SoftwareVersion)))
                } else {
                    (InitPhase::ConfiguringSerial, InitAction::Send(InitCommand::SetRS232Settings(SetRS232Settings::driver_default())))
                },
                InitPhase::ConfiguringSerial => (
                    InitPhase::StoringConfig,
                    InitAction::Send(InitCommand::StoreCurrentConfig(StoreCurrentConfig)),
                ),
                InitPhase::StoringConfig => (
                    InitPhase::Rebooting,
                    InitAction::Send(InitCommand::RebootDCE(RebootDCE)),
                ),
                InitPhase::Rebooting => (
                    InitPhase::AwaitingStartup { rebooted: true },
                    InitAction::AwaitStartup(REBOOT_TIMEOUT_MS),
                ),
                InitPhase::QueryingVersion => (InitPhase::Ready, InitAction::Done),
                InitPhase::Ready => (InitPhase::Ready, InitAction::Done),
                InitPhase::Failed(e) => (InitPhase::Failed(e), InitAction::Fail(e)),
            },
        }
    }
}

/// What the caller is to do after an unsolicited event.
#[derive(Debug, Clone, Copy, PartialEq, Eq, Structural)]
pub enum UrcAction {
    /// Nothing more.
    Nothing,
    /// The module restarted without being asked to.
    UnexpectedRestart,
    /// The link was lost for security problems; a fatal failure for observers.
    SecurityProblems,
    /// Query the status of this network interface and hand it to
    /// [`Runner::apply_network_status`].
    RefreshNetworkStatus(u8),
}

/// The answers to the three status queries of a network interface, as
/// plain values: whether it is the Wi-Fi station interface, its IPv4
/// gateway and its IPv6 link-local address, each `None` when it could not
/// be read.
#[derive(Debug, Clone, Copy, PartialEq, Eq, Structural)]
pub struct NetworkStatusReport {
    pub is_wifi_station: bool,
    pub ipv4_gateway: Option<u32>,
    pub ipv6_link_local: Option<u128>,
}

/// Whether the IP layer is up by a status report: both addresses are known
/// and neither is unspecified.
pub open spec fn report_network_up(r: NetworkStatusReport) -> bool {
    (r.ipv4_gateway matches Some(a) && a != 0) && (r.ipv6_link_local matches Some(b) && b != 0)
}

/// The link-layer state after a disconnect for `reason`.
pub open spec fn state_after_disconnect(s: WiFiState, reason: DisconnectReason) -> WiFiState {
    match reason {
        DisconnectReason::NetworkDisabled => WiFiState::Inactive,
        DisconnectReason::SecurityProblems => s,
        _ => WiFiState::NotConnected,
    }
}

/// The descriptor after the link came up on `bssid` and `channel`: marked
/// connected on them, or, if there was none, an activated station
/// descriptor in slot 255 with the IP layer down.
pub open spec fn after_link_connected(c: Option<WifiConnection>, bssid: Vec<u8>, channel: u8) -> Option<
    WifiConnection,
> {
    match c {
        Some(con) => Some(
            WifiConnection {
                wifi_state: WiFiState::Connected,
                network: WifiNetwork { bssid, channel, ..con.network },
                ..con
            },
        ),
        None => Some(
            WifiConnection {
                wifi_state: WiFiState::Connected,
                network_state: crate::wifi::NetworkState::Unattached,
                network_up: false,
                network: WifiNetwork { bssid, channel, mode: crate::wifi::WifiMode::Station },
                config_id: 255,
                activated: true,
            },
        ),
    }
}

/// The descriptor after the link went down for `reason`.
pub open spec fn after_link_disconnected(c: Option<WifiConnection>, reason: DisconnectReason) -> Option<
    WifiConnection,
> {
    match c {
        Some(con) => Some(WifiConnection { wifi_state: state_after_disconnect(con.wifi_state, reason), ..con }),
        None => None,
    }
}

/// The descriptor after a status report of the station interface.
pub open spec fn after_network_status(c: Option<WifiConnection>, report: NetworkStatusReport) -> Option<
    WifiConnection,
> {
    match c {
        Some(con) => Some(WifiConnection { network_up: report_network_up(report), ..con }),
        None => None,
    }
}

/// The runner's Wi-Fi state: the connection descriptor, if there is one,
/// and the published link state.
pub struct Runner {
    pub wifi_connection: Option<WifiConnection>,
    /// The link state as last published to the socket layer and observers.
    pub link_up: bool,
}

/// Whether the link is up by the descriptor.
pub open spec fn link_predicate(c: Option<WifiConnection>) -> bool {
    c matches Some(con) && con.link_up()
}

impl Runner {
    /// No descriptor, link down.
    pub fn new() -> (r: Self)
        ensures
            r.wifi_connection is None,
            !r.link_up,
    {
        Runner { wifi_connection: None, link_up: false }
    }

    /// Recomputes the link predicate, publishes it, and returns it.
    pub fn is_link_up(&mut self) -> (r: bool)
        ensures
            r == link_predicate(old(self).wifi_connection),
            final(self).link_up == r,
            final(self).wifi_connection == old(self).wifi_connection,
    {
        let up = match &self.wifi_connection {
            Some(con) => con.network_up && con.wifi_state == WiFiState::Connected,
            None => false,
        };
        self.link_up = up;
        up
    }

    /// Acts on an unsolicited event.
    ///
    /// A link-up event marks the descriptor connected on the reported BSSID
    /// and channel, making an activated station descriptor if there was
    /// none; a link-down event moves it to `Inactive` when the network was
    /// disabled, leaves it for security problems, else moves it to
    /// `NotConnected`. Both publish the link predicate. A network up or down
    /// event asks for a status refresh; a startup event reports a restart.
    pub fn handle_urc(&mut self, urc: Urc) -> (r: UrcAction)
        ensures
            final(self).link_up == match urc {
                Urc::WifiLinkConnected(_) | Urc::WifiLinkDisconnected(_) => link_predicate(final(self).wifi_connection),
                _ => old(self).link_up,
            },
            match urc {
                Urc::StartUp => r == UrcAction::UnexpectedRestart && final(self).wifi_connection == old(self).wifi_connection,
                Urc::WifiLinkConnected(ev) => r == UrcAction::Nothing && final(self).wifi_connection
                    == after_link_connected(old(self).wifi_connection, ev.bssid, ev.channel),
                Urc::WifiLinkDisconnected(ev) => (if ev.reason == DisconnectReason::SecurityProblems {
                    r == UrcAction::SecurityProblems
                } else {
                    r == UrcAction::Nothing
                }) && final(self).wifi_connection == after_link_disconnected(old(self).wifi_connection, ev.reason),
                Urc::NetworkUp(ev) => r == UrcAction::RefreshNetworkStatus(ev.interface_id)
                    && final(self).wifi_connection == old(self).wifi_connection,
                Urc::NetworkDown(ev) => r == UrcAction::RefreshNetworkStatus(ev.interface_id)
                    && final(self).wifi_connection == old(self).wifi_connection,
                _ => r == UrcAction::Nothing && final(self).wifi_connection == old(self).wifi_connection,
            },
    {
        match urc {
            Urc::StartUp => UrcAction::UnexpectedRestart,
            Urc::WifiLinkConnected(ev) => {
                match self.wifi_connection.take() {
                    Some(mut con) => {
                        con.wifi_state = WiFiState::Connected;
                        con.network.bssid = ev.bssid;
                        con.network.channel = ev.channel;
                        self.wifi_connection = Some(con);
                    },
                    None => {
                        let network = WifiNetwork::new_station(ev.bssid, ev.channel);
                        let con = WifiConnection::new(network, WiFiState::Connected, 255).activate();
                        self.wifi_connection = Some(con);
                    },
                }
                self.is_link_up();
                UrcAction::Nothing
            },
            Urc::WifiLinkDisconnected(ev) => {
                let action = match ev.reason {
                    DisconnectReason::SecurityProblems => UrcAction::SecurityProblems,
                    _ => UrcAction::Nothing,
                };
                match self.wifi_connection.take() {
                    Some(mut con) => {
                        match ev.reason {
                            DisconnectReason::NetworkDisabled => {
                                con.wifi_state = WiFiState::Inactive;
                            },
                            DisconnectReason::SecurityProblems => {},
                            _ => {
                                con.wifi_state = WiFiState::NotConnected;
                            },
                        }
                        self.wifi_connection = Some(con);
                    },
                    None => {},
                }
                self.is_link_up();
                action
            },
            Urc::NetworkUp(ev) => UrcAction::RefreshNetworkStatus(ev.interface_id),
            Urc::NetworkDown(ev) => UrcAction::RefreshNetworkStatus(ev.interface_id),
            _ => UrcAction::Nothing,
        }
    }

    /// Takes the answers to the status queries of an interface. `Network`,
    /// with nothing changed, when the interface is not the Wi-Fi station;
    /// else the IP layer of the descriptor, if there is one, is up exactly
    /// when both addresses are known and specified, and the link predicate
    /// is published.
    pub fn apply_network_status(&mut self, report: NetworkStatusReport) -> (r: Result<(), Error>)
        ensures
            !report.is_wifi_station ==> r == Err::<(), Error>(Error::Network) && final(self).wifi_connection
                == old(self).wifi_connection && final(self).link_up == old(self).link_up,
            report.is_wifi_station ==> r is Ok && final(self).wifi_connection == after_network_status(
                old(self).wifi_connection,
                report,
            ) && final(self).link_up == link_predicate(final(self).wifi_connection),
    {
        if !report.is_wifi_station {
            return Err(Error::Network);
        }
        let ipv4_up = match report.ipv4_gateway {
            Some(a) => a != 0,
            None => false,
        };
        let ipv6_up = match report.ipv6_link_local {
            Some(b) => b != 0,
            None => false,
        };
        match self.wifi_connection.take() {
            Some(mut con) => {
                con.network_up = ipv4_up && ipv6_up;
                self.wifi_connection = Some(con);
            },
            None => {},
        }
        self.is_link_up();
        Ok(())
    }
}

/// On a runner with no descriptor, or whose IP layer is down, a link-up
/// event leaves the link predicate false; a following status report of the
/// station interface with a specified IPv4 gateway and a specified IPv6
/// link-local address makes it true.
pub proof fn lemma_link_up_needs_network(
    c: Option<WifiConnection>,
    bssid: Vec<u8>,
    channel: u8,
    report: NetworkStatusReport,
)
    requires
        c matches Some(o) ==> !o.network_up,
        report.ipv4_gateway matches Some(a) && a != 0,
        report.ipv6_link_local matches Some(b) && b != 0,
    ensures
        !link_predicate(after_link_connected(c, bssid, channel)),
        link_predicate(after_network_status(after_link_connected(c, bssid, channel), report)),
{
}

} // verus!
