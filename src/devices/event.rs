//! Typed values decoded from device reports.

use vstd::prelude::*;

verus! {

/// Charge state reported by a headset.
#[derive(Debug, Clone, Copy, PartialEq, Eq, Structural)]
pub enum ChargingStatus {
    NotCharging,
    Charging,
    FullyCharged,
    ChargeError,
}

/// The charge state that a status byte stands for: 0, 1 and 2 are named,
/// every other value is an error report.
pub open spec fn charging_status_of(value: u8) -> ChargingStatus {
    if value == 0 {
        ChargingStatus::NotCharging
    } else if value == 1 {
        ChargingStatus::Charging
    } else if value == 2 {
        ChargingStatus::FullyCharged
    } else {
        ChargingStatus::ChargeError
    }
}

impl From<u8> for ChargingStatus {
    fn from(value: u8) -> (r: ChargingStatus)
        ensures
            r == charging_status_of(value),
    {
        match value {
            0 => ChargingStatus::NotCharging,
            1 => ChargingStatus::Charging,
            2 => ChargingStatus::FullyCharged,
            _ => ChargingStatus::ChargeError,
        }
    }
}

impl vstd::std_specs::convert::FromSpecImpl<u8> for ChargingStatus {
    open spec fn obeys_from_spec() -> bool {
        true
    }

    open spec fn from_spec(v: u8) -> ChargingStatus {
        charging_status_of(v)
    }
}

/// Colour of the headset shell as the device reports it.
#[derive(Debug, Clone, Copy, PartialEq, Eq, Structural)]
pub enum Color {
    BlackBlack,
    BlackRed,
    UnknownColor(u8),
}

/// The colour that a colour byte stands for: 0 and 2 are named, every
/// other value is kept as it came.
pub open spec fn color_of(value: u8) -> Color {
    if value == 0 {
        Color::BlackBlack
    } else if value == 2 {
        Color::BlackRed
    } else {
        Color::UnknownColor(value)
    }
}

impl From<u8> for Color {
    fn from(color: u8) -> (r: Color)
        ensures
            r == color_of(color),
    {
        match color {
            0 => Color::BlackBlack,
            2 => Color::BlackRed,
            _ => Color::UnknownColor(color),
        }
    }
}

impl vstd::std_specs::convert::FromSpecImpl<u8> for Color {
    open spec fn obeys_from_spec() -> bool {
        true
    }

    open spec fn from_spec(v: u8) -> Color {
        color_of(v)
    }
}

/// One observed feature value, fully decoded from a device report.
#[derive(Debug, Clone, Copy, PartialEq, Eq, Structural)]
pub enum DeviceEvent {
    BatteryLevel(u8),
    Muted(bool),
    MicConnected(bool),
    Charging(ChargingStatus),
    /// Delay before automatic shutdown, in seconds (0: disabled).
    AutomaticShutdownAfter(u64),
    PairingInfo(u8),
    ProductColor(Color),
    SideToneOn(bool),
    SideToneVolume(u8),
    VoicePrompt(bool),
    WirelessConnected(bool),
    SurroundSound(bool),
    Silent(bool),
    NoiseGateActive(bool),
    RequireSIRKReset(bool),
}

} // verus!
