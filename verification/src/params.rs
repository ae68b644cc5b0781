//! The module's configuration parameter space, modelled as plain values.
//!
//! A desired configuration is a [`Parameters`] value together with a
//! [`Persistence`] flag; the configuration read back from the module has
//! the same shape minus the flag, which is a write-time instruction and
//! not a stored attribute. Reconciliation compares desired against
//! observed parameters by full structural equality.

use vstd::prelude::*;

verus! {

/// Whether a parameter write survives power-cycling the module.
#[derive(Clone, Copy, Debug, PartialEq, Eq, Structural, Default)]
pub enum Persistence {
    #[default]
    Temporary,
    Permanent,
}

/// UART parity bit setting.
#[derive(Clone, Copy, Debug, PartialEq, Eq, Structural, Default)]
pub enum Parity {
    #[default]
    NoParity,
    Odd,
    Even,
}

/// UART baud rate between host and module.
#[derive(Clone, Copy, Debug, PartialEq, Eq, Structural, Default)]
pub enum BaudRate {
    Bps1200,
    Bps2400,
    Bps4800,
    #[default]
    Bps9600,
    Bps19200,
    Bps38400,
    Bps57600,
    Bps115200,
}

/// Over-the-air baud rate of the radio link.
#[derive(Clone, Copy, Debug, PartialEq, Eq, Structural, Default)]
pub enum AirBaudRate {
    Bps300,
    Bps1200,
    #[default]
    Bps2400,
    Bps4800,
    Bps9600,
    Bps19200,
}

/// Transparent or fixed transmission.
#[derive(Clone, Copy, Debug, PartialEq, Eq, Structural, Default)]
pub enum TransmissionMode {
    #[default]
    Transparent,
    Fixed,
}

/// Drive mode of the module's busy/aux pin.
#[derive(Clone, Copy, Debug, PartialEq, Eq, Structural, Default)]
pub enum IoDriveMode {
    #[default]
    PushPull,
    OpenCollector,
}

/// Wireless wakeup interval.
#[derive(Clone, Copy, Debug, PartialEq, Eq, Structural, Default)]
pub enum WakeupTime {
    #[default]
    Ms250,
    Ms500,
    Ms750,
    Ms1000,
    Ms1250,
    Ms1500,
    Ms1750,
    Ms2000,
}

/// Forward error correction on the radio link.
#[derive(Clone, Copy, Debug, PartialEq, Eq, Structural, Default)]
pub enum ForwardErrorCorrectionMode {
    #[default]
    On,
    Off,
}

/// Transmission power of the radio.
#[derive(Clone, Copy, Debug, PartialEq, Eq, Structural, Default)]
pub enum TransmissionPower {
    #[default]
    Dbm30,
    Dbm27,
    Dbm24,
    Dbm21,
}

/// One full set of module configuration parameters.
#[derive(Clone, Copy, Debug, PartialEq, Eq, Structural)]
pub struct Parameters {
    /// Module address (16 bit).
    pub address: u16,
    /// Channel (8 bit).
    pub channel: u8,
    /// UART parity.
    pub uart_parity: Parity,
    /// UART baud rate.
    pub uart_rate: BaudRate,
    /// Air baud rate.
    pub air_rate: AirBaudRate,
    /// Transmission mode.
    pub transmission_mode: TransmissionMode,
    /// Drive mode for the busy/aux pin.
    pub io_drive_mode: IoDriveMode,
    /// Wireless wakeup time.
    pub wakeup_time: WakeupTime,
    /// Forward error correction mode.
    pub fec: ForwardErrorCorrectionMode,
    /// Transmission power.
    pub transmission_power: TransmissionPower,
}

impl Parameters {
    /// The parameter set with every field at its default.
    pub open spec fn default_spec() -> Parameters {
        Parameters {
            address: 0,
            channel: 0,
            uart_parity: Parity::NoParity,
            uart_rate: BaudRate::Bps9600,
            air_rate: AirBaudRate::Bps2400,
            transmission_mode: TransmissionMode::Transparent,
            io_drive_mode: IoDriveMode::PushPull,
            wakeup_time: WakeupTime::Ms250,
            fec: ForwardErrorCorrectionMode::On,
            transmission_power: TransmissionPower::Dbm30,
        }
    }
}

impl Default for Parameters {
    /// Every field at its default value.
    fn default() -> (p: Parameters)
        ensures
            p == Parameters::default_spec(),
    {
        Parameters {
            address: 0,
            channel: 0,
            uart_parity: Parity::NoParity,
            uart_rate: BaudRate::Bps9600,
            air_rate: AirBaudRate::Bps2400,
            transmission_mode: TransmissionMode::Transparent,
            io_drive_mode: IoDriveMode::PushPull,
            wakeup_time: WakeupTime::Ms250,
            fec: ForwardErrorCorrectionMode::On,
            transmission_power: TransmissionPower::Dbm30,
        }
    }
}

} // verus!
