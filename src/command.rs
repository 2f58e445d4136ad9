//! The AT commands that the driver issues, as plain values. Their text form
//! and the parsing of their responses belong to the AT codec.
use vstd::prelude::*;

verus! {

/// Manufacturer identification (`+CGMI`).
#[derive(Debug, Clone, Copy, PartialEq, Eq, Structural)]
pub struct ManufacturerIdentification;

/// Model identification (`+CGMM`).
#[derive(Debug, Clone, Copy, PartialEq, Eq, Structural)]
pub struct ModelIdentification;

/// Software version identification (`+CGMR`).
#[derive(Debug, Clone, Copy, PartialEq, Eq, Structural)]
pub struct SoftwareVersion;

/// Serial number (`+CGSN`).
#[derive(Debug, Clone, Copy, PartialEq, Eq, Structural)]
pub struct SerialNumber;

/// Manufacturer identification (`+GMI`).
#[derive(Debug, Clone, Copy, PartialEq, Eq, Structural)]
pub struct ManufacturerIdentification2;

/// Software version identification (`+GMR`).
#[derive(Debug, Clone, Copy, PartialEq, Eq, Structural)]
pub struct SoftwareVersion2;

/// Serial number (`+GSN`).
#[derive(Debug, Clone, Copy, PartialEq, Eq, Structural)]
pub struct SerialNumber2;

/// Identification information: type code (`I0`).
#[derive(Debug, Clone, Copy, PartialEq, Eq, Structural)]
pub struct IdentificationInformationTypeCode;

/// Identification information: software version (`I9`).
#[derive(Debug, Clone, Copy, PartialEq, Eq, Structural)]
pub struct IdentificationInformationSoftwareVersion;

/// Identification information: MCU id (`I10`).
#[derive(Debug, Clone, Copy, PartialEq, Eq, Structural)]
pub struct IdentificationInformationMCUID;

/// Stores the current configuration (`&W0`).
#[derive(Debug, Clone, Copy, PartialEq, Eq, Structural)]
pub struct StoreCurrentConfig;

/// Sets the current configuration to the stored one (`Z0`).
#[derive(Debug, Clone, Copy, PartialEq, Eq, Structural)]
pub struct SetToDefaultConfig;

/// Resets the stored configuration to the factory defaults (`+UFACTORY`).
#[derive(Debug, Clone, Copy, PartialEq, Eq, Structural)]
pub struct ResetToFactoryDefaults;

/// Reboots the module (`+CPWROFF`).
#[derive(Debug, Clone, Copy, PartialEq, Eq, Structural)]
pub struct RebootDCE;

/// Reads whether a low-power oscillator was detected (`+UMLPO`).
#[derive(Debug, Clone, Copy, PartialEq, Eq, Structural)]
pub struct GetLPODetection;

/// Lists the stations of the access point (`+UWAPSTALIST`).
#[derive(Debug, Clone, Copy, PartialEq, Eq, Structural)]
pub struct WiFiAPStationList;

/// Reads the MAC address of the access point (`+UWAPMACADDR`).
#[derive(Debug, Clone, Copy, PartialEq, Eq, Structural)]
pub struct GetWifiMac;

/// Sets the escape character (`S2`).
#[derive(Debug, Clone, Copy, PartialEq, Eq, Structural)]
pub struct SetEscapeCharacter {
    pub esc_char: u8,
}

/// Sets the line termination character (`S3`).
#[derive(Debug, Clone, Copy, PartialEq, Eq, Structural)]
pub struct SetLineTerminationCharacter {
    pub line_term: u8,
}

/// Sets the response formatting character (`S4`).
#[derive(Debug, Clone, Copy, PartialEq, Eq, Structural)]
pub struct SetResponseFormattingCharacter {
    pub term: u8,
}

/// Sets the backspace character (`S5`).
#[derive(Debug, Clone, Copy, PartialEq, Eq, Structural)]
pub struct SetBackspaceCharacter {
    pub backspace: u8,
}

/// Whether the module echoes what it receives.
#[derive(Debug, Clone, Copy, PartialEq, Eq, Structural)]
pub enum EchoOn {
    Off,
    On,
}

/// Switches the echo (`E`).
#[derive(Debug, Clone, Copy, PartialEq, Eq, Structural)]
pub struct SetEcho {
    pub on: EchoOn,
}

/// A baud rate of the serial line.
#[derive(Debug, Clone, Copy, PartialEq, Eq, Structural)]
pub enum BaudRate {
    B9600,
    B19200,
    B38400,
    B57600,
    B115200,
    B230400,
    B460800,
    B921600,
}

/// Hardware flow control of the serial line.
#[derive(Debug, Clone, Copy, PartialEq, Eq, Structural)]
pub enum FlowControl {
    On,
    Off,
}

/// Stop bits of the serial line.
#[derive(Debug, Clone, Copy, PartialEq, Eq, Structural)]
pub enum StopBits {
    One,
    Two,
}

/// Parity of the serial line.
#[derive(Debug, Clone, Copy, PartialEq, Eq, Structural)]
pub enum Parity {
    /// No parity bit.
    NoParity,
    Odd,
    Even,
}

/// When new serial settings take effect.
#[derive(Debug, Clone, Copy, PartialEq, Eq, Structural)]
pub enum ChangeAfterConfirm {
    /// Right after the confirmation.
    ChangeAfterOK,
    /// Stored, and applied at the next reset.
    StoreAndReset,
}

/// Sets the serial line (`+UMRS`). In EDM the settings can only be stored
/// and applied by a reset.
#[derive(Debug, Clone, Copy, PartialEq, Eq, Structural)]
pub struct SetRS232Settings {
    pub baud_rate: BaudRate,
    pub flow_control: FlowControl,
    pub data_bits: u8,
    pub stop_bits: StopBits,
    pub parity: Parity,
    pub change_after_confirm: ChangeAfterConfirm,
}

/// The serial settings the driver runs the module with: 115200 baud,
/// hardware flow control, 8 data bits, one stop bit, no parity, stored and
/// applied at the next reset.
pub open spec fn driver_serial_settings() -> SetRS232Settings {
    SetRS232Settings {
        baud_rate: BaudRate::B115200,
        flow_control: FlowControl::On,
        data_bits: 8,
        stop_bits: StopBits::One,
        parity: Parity::NoParity,
        change_after_confirm: ChangeAfterConfirm::StoreAndReset,
    }
}

impl SetRS232Settings {
    /// The settings the driver runs the module with.
    pub fn driver_default() -> (r: Self)
        ensures
            r == driver_serial_settings(),
    {
        SetRS232Settings {
            baud_rate: BaudRate::B115200,
            flow_control: FlowControl::On,
            data_bits: 8,
            stop_bits: StopBits::One,
            parity: Parity::NoParity,
            change_after_confirm: ChangeAfterConfirm::StoreAndReset,
        }
    }
}

/// An action on a Wi-Fi station configuration.
#[derive(Debug, Clone, Copy, PartialEq, Eq, Structural)]
pub enum WifiStationAction {
    Reset,
    Store,
    Load,
    Activate,
    Deactivate,
}

/// Acts on a Wi-Fi station configuration (`+UWSCA`).
#[derive(Debug, Clone, Copy, PartialEq, Eq, Structural)]
pub struct ExecWifiStationAction {
    pub config_id: u8,
    pub action: WifiStationAction,
}

} // verus!
