//! HyperX Cloud II Core Wireless: 64-byte reports that start with 102, the
//! command byte right after, its argument after that.

use vstd::prelude::*;

use crate::devices::codec::{
    build_command_packet, build_setting_packet, events_view, optional_command_packet,
    optional_setting_packet, packet_view, setting_argument, setting_argument_byte, zeroed, zeros,
    Query, Setting,
};
use crate::devices::event::{charging_status_of, ChargingStatus, DeviceEvent};

verus! {

pub const HP: u16 = 0x03F0;

pub const REPORT_ID: u8 = 102;

pub const GET_CHARGING_CMD_ID: u8 = 138;
pub const CHARGING_RESPONSE_ID: u8 = 12;
pub const GET_MIC_CONNECTED_CMD_ID: u8 = 140;
pub const MIC_CONNECTED_RESPONSE_ID: u8 = 7;
pub const GET_BATTERY_CMD_ID: u8 = 137;
pub const BATTERY_RESPONSE_ID: u8 = 13;
pub const GET_AUTO_SHUTDOWN_CMD_ID: u8 = 133;
pub const SET_AUTO_SHUTDOWN_CMD_ID: u8 = 2;
pub const GET_MUTE_CMD_ID: u8 = 134;
pub const MUTE_RESPONSE_ID: u8 = 10;
pub const SET_MUTE_CMD_ID: u8 = 3;
pub const GET_PAIRING_CMD_ID: u8 = 129;
pub const GET_SIDE_TONE_ON_CMD_ID: u8 = 132;
pub const SIDE_TONE_RESPONSE_ID: u8 = 9;
pub const SET_SIDE_TONE_ON_CMD_ID: u8 = 1;
pub const GET_SIDE_TONE_VOLUME_CMD_ID: u8 = 136;
pub const SET_SIDE_TONE_VOLUME_CMD_ID: u8 = 5;
pub const GET_WIRELESS_STATUS_CMD_ID: u8 = 130;
pub const WIRELESS_STATUS_RESPONSE_ID: u8 = 11;
pub const GET_PLAY_BACK_MUTE_CMD_ID: u8 = 135;
pub const SET_PLAY_BACK_MUTE_CMD_ID: u8 = 4;
pub const GET_NOISE_GATE_CMD_ID: u8 = 141;
pub const SET_NOISE_GATE_CMD_ID: u8 = 15;

/// Whether this model claims the given vendor and product ID.
pub open spec fn claims(vendor_id: u16, product_id: u16) -> bool {
    vendor_id == HP && product_id == 0x0aa0
}

pub fn claims_ids(vendor_id: u16, product_id: u16) -> (r: bool)
    ensures
        r == claims(vendor_id, product_id),
{
    vendor_id == HP && product_id == 0x0aa0
}

pub const PACKET_SIZE: usize = 64;

/// Offset of the command byte.
pub const CMD_AT: usize = 1;

/// The frame every packet of this model starts from.
pub open spec fn frame() -> Seq<u8> {
    zeros(PACKET_SIZE as nat).update(0, REPORT_ID)
}

pub fn base_frame() -> (r: Vec<u8>)
    ensures
        r@ == frame(),
        r@.len() == PACKET_SIZE,
{
    let mut p = zeroed(PACKET_SIZE);
    p.set(0, REPORT_ID);
    p
}

/// The command byte that asks `q`.
pub open spec fn query_command(q: Query) -> Option<u8> {
    match q {
        Query::WirelessConnected => Some(GET_WIRELESS_STATUS_CMD_ID),
        Query::Charging => Some(GET_CHARGING_CMD_ID),
        Query::Battery => Some(GET_BATTERY_CMD_ID),
        Query::AutomaticShutdown => Some(GET_AUTO_SHUTDOWN_CMD_ID),
        Query::Mute => Some(GET_MUTE_CMD_ID),
        Query::MicConnected => Some(GET_MIC_CONNECTED_CMD_ID),
        Query::PairingInfo => Some(GET_PAIRING_CMD_ID),
        Query::SideTone => Some(GET_SIDE_TONE_ON_CMD_ID),
        Query::SideToneVolume => Some(GET_SIDE_TONE_VOLUME_CMD_ID),
        Query::SilentMode => Some(GET_PLAY_BACK_MUTE_CMD_ID),
        _ => None,
    }
}

pub fn query_command_byte(q: Query) -> (r: Option<u8>)
    ensures
        r == query_command(q),
{
    match q {
        Query::WirelessConnected => Some(GET_WIRELESS_STATUS_CMD_ID),
        Query::Charging => Some(GET_CHARGING_CMD_ID),
        Query::Battery => Some(GET_BATTERY_CMD_ID),
        Query::AutomaticShutdown => Some(GET_AUTO_SHUTDOWN_CMD_ID),
        Query::Mute => Some(GET_MUTE_CMD_ID),
        Query::MicConnected => Some(GET_MIC_CONNECTED_CMD_ID),
        Query::PairingInfo => Some(GET_PAIRING_CMD_ID),
        Query::SideTone => Some(GET_SIDE_TONE_ON_CMD_ID),
        Query::SideToneVolume => Some(GET_SIDE_TONE_VOLUME_CMD_ID),
        Query::SilentMode => Some(GET_PLAY_BACK_MUTE_CMD_ID),
        _ => None,
    }
}

/// The command byte that applies `s`.
pub open spec fn setting_command(s: Setting) -> Option<u8> {
    match s {
        Setting::AutomaticShutdown(_) => Some(SET_AUTO_SHUTDOWN_CMD_ID),
        Setting::Mute(_) => Some(SET_MUTE_CMD_ID),
        Setting::SideTone(_) => Some(SET_SIDE_TONE_ON_CMD_ID),
        Setting::SideToneVolume(_) => Some(SET_SIDE_TONE_VOLUME_CMD_ID),
        Setting::SilentMode(_) => Some(SET_PLAY_BACK_MUTE_CMD_ID),
        Setting::NoiseGate(_) => Some(SET_NOISE_GATE_CMD_ID),
        _ => None,
    }
}

pub fn setting_command_byte(s: Setting) -> (r: Option<u8>)
    ensures
        r == setting_command(s),
{
    match s {
        Setting::AutomaticShutdown(_) => Some(SET_AUTO_SHUTDOWN_CMD_ID),
        Setting::Mute(_) => Some(SET_MUTE_CMD_ID),
        Setting::SideTone(_) => Some(SET_SIDE_TONE_ON_CMD_ID),
        Setting::SideToneVolume(_) => Some(SET_SIDE_TONE_VOLUME_CMD_ID),
        Setting::SilentMode(_) => Some(SET_PLAY_BACK_MUTE_CMD_ID),
        Setting::NoiseGate(_) => Some(SET_NOISE_GATE_CMD_ID),
        _ => None,
    }
}

/// The side-tone volume byte as this model reports it: 0 to 5 as they
/// are, 251 to 255 kept as the two's-complement offsets -5 to -1, and
/// anything else read as 0.
pub open spec fn reported_volume(v: u8) -> u8 {
    if v >= 251 || v <= 5 {
        v
    } else {
        0
    }
}

fn reported_volume_byte(v: u8) -> (r: u8)
    ensures
        r == reported_volume(v),
{
    if v >= 251 {
        v
    } else if v <= 5 {
        v
    } else {
        0
    }
}

/// The side-tone volume byte this model is sent: the value read as a signed
/// byte, held to -5..=5, in two's complement.
pub open spec fn sent_volume(v: u8) -> u8 {
    if v <= 5 {
        v
    } else if v < 128 {
        5
    } else if v < 251 {
        251
    } else {
        v
    }
}

/// The argument byte of a setting on this model.
pub open spec fn argument(s: Setting) -> u8 {
    match s {
        Setting::SideToneVolume(v) => sent_volume(v),
        _ => setting_argument(s),
    }
}

fn argument_byte(s: Setting) -> (r: u8)
    ensures
        r == argument(s),
{
    match s {
        Setting::SideToneVolume(v) => {
            if v <= 5 {
                v
            } else if v < 128 {
                5
            } else if v < 251 {
                251
            } else {
                v
            }
        },
        _ => setting_argument_byte(s),
    }
}

/// The packet that asks `q`.
pub open spec fn query_packet(q: Query) -> Option<Seq<u8>> {
    optional_command_packet(frame(), CMD_AT as int, query_command(q))
}

pub fn encode_get(q: Query) -> (r: Option<Vec<u8>>)
    ensures
        packet_view(r) == query_packet(q),
{
    build_command_packet(base_frame(), CMD_AT, query_command_byte(q))
}

/// The packet that applies `s`.
pub open spec fn setting_packet(s: Setting) -> Option<Seq<u8>> {
    optional_setting_packet(frame(), CMD_AT as int, setting_command(s), argument(s))
}

pub fn encode_set(s: Setting) -> (r: Option<Vec<u8>>)
    ensures
        packet_view(r) == setting_packet(s),
{
    build_setting_packet(base_frame(), CMD_AT, setting_command_byte(s), argument_byte(s))
}

/// The events of one report. The same command byte is used for the answer
/// to a query and for a report the device pushes on its own.
pub open spec fn decoded(r: Seq<u8>) -> Option<Seq<DeviceEvent>> {
    if r.len() < 5 || r[0] != REPORT_ID {
        None
    } else {
        let (cmd, a, b, c) = (r[1], r[2], r[3], r[4]);
        if cmd == GET_CHARGING_CMD_ID || cmd == CHARGING_RESPONSE_ID {
            Some(seq![DeviceEvent::Charging(charging_status_of(a))])
        } else if cmd == GET_MIC_CONNECTED_CMD_ID || cmd == MIC_CONNECTED_RESPONSE_ID {
            Some(seq![DeviceEvent::MicConnected(a == 1)])
        } else if cmd == GET_BATTERY_CMD_ID || cmd == BATTERY_RESPONSE_ID {
            if a != 0 || b != 0 {
                Some(seq![DeviceEvent::BatteryLevel(c)])
            } else {
                None
            }
        } else if cmd == GET_AUTO_SHUTDOWN_CMD_ID || cmd == SET_AUTO_SHUTDOWN_CMD_ID {
            Some(seq![DeviceEvent::AutomaticShutdownAfter((a as u64 * 60) as u64)])
        } else if cmd == SET_MUTE_CMD_ID || cmd == GET_MUTE_CMD_ID || cmd == MUTE_RESPONSE_ID {
            Some(seq![DeviceEvent::Muted(a == 1)])
        } else if cmd == GET_PAIRING_CMD_ID {
            Some(seq![DeviceEvent::PairingInfo(a)])
        } else if cmd == GET_SIDE_TONE_ON_CMD_ID || cmd == SET_SIDE_TONE_ON_CMD_ID || cmd == SIDE_TONE_RESPONSE_ID {
            Some(seq![DeviceEvent::SideToneOn(a == 1)])
        } else if cmd == GET_SIDE_TONE_VOLUME_CMD_ID || cmd == SET_SIDE_TONE_VOLUME_CMD_ID {
            Some(seq![DeviceEvent::SideToneVolume(reported_volume(a))])
        } else if cmd == GET_WIRELESS_STATUS_CMD_ID || cmd == WIRELESS_STATUS_RESPONSE_ID {
            Some(seq![DeviceEvent::WirelessConnected(a == 1)])
        } else if cmd == GET_PLAY_BACK_MUTE_CMD_ID || cmd == SET_PLAY_BACK_MUTE_CMD_ID {
            Some(seq![DeviceEvent::Silent(a == 1)])
        } else if cmd == GET_NOISE_GATE_CMD_ID || cmd == SET_NOISE_GATE_CMD_ID {
            Some(seq![DeviceEvent::NoiseGateActive(a == 1)])
        } else {
            None
        }
    }
}

/// Decodes one inbound report.
pub fn get_event_from_device_response(response: &[u8]) -> (r: Option<Vec<DeviceEvent>>)
    ensures
        events_view(r) == decoded(response@),
{
    if response.len() < 5 || response[0] != REPORT_ID {
        return None;
    }
    let cmd = response[1];
    let a = response[2];
    let b = response[3];
    let c = response[4];
    let r = if cmd == GET_CHARGING_CMD_ID || cmd == CHARGING_RESPONSE_ID {
        Some(vec![DeviceEvent::Charging(ChargingStatus::from(a))])
    } else if cmd == GET_MIC_CONNECTED_CMD_ID || cmd == MIC_CONNECTED_RESPONSE_ID {
        Some(vec![DeviceEvent::MicConnected(a == 1)])
    } else if cmd == GET_BATTERY_CMD_ID || cmd == BATTERY_RESPONSE_ID {
        if a != 0 || b != 0 {
            Some(vec![DeviceEvent::BatteryLevel(c)])
        } else {
            None
        }
    } else if cmd == GET_AUTO_SHUTDOWN_CMD_ID || cmd == SET_AUTO_SHUTDOWN_CMD_ID {
        Some(vec![DeviceEvent::AutomaticShutdownAfter(a as u64 * 60)])
    } else if cmd == SET_MUTE_CMD_ID || cmd == GET_MUTE_CMD_ID || cmd == MUTE_RESPONSE_ID {
        Some(vec![DeviceEvent::Muted(a == 1)])
    } else if cmd == GET_PAIRING_CMD_ID {
        Some(vec![DeviceEvent::PairingInfo(a)])
    } else if cmd == GET_SIDE_TONE_ON_CMD_ID || cmd == SET_SIDE_TONE_ON_CMD_ID || cmd == SIDE_TONE_RESPONSE_ID {
        Some(vec![DeviceEvent::SideToneOn(a == 1)])
    } else if cmd == GET_SIDE_TONE_VOLUME_CMD_ID || cmd == SET_SIDE_TONE_VOLUME_CMD_ID {
        Some(vec![DeviceEvent::SideToneVolume(reported_volume_byte(a))])
    } else if cmd == GET_WIRELESS_STATUS_CMD_ID || cmd == WIRELESS_STATUS_RESPONSE_ID {
        Some(vec![DeviceEvent::WirelessConnected(a == 1)])
    } else if cmd == GET_PLAY_BACK_MUTE_CMD_ID || cmd == SET_PLAY_BACK_MUTE_CMD_ID {
        Some(vec![DeviceEvent::Silent(a == 1)])
    } else if cmd == GET_NOISE_GATE_CMD_ID || cmd == SET_NOISE_GATE_CMD_ID {
        Some(vec![DeviceEvent::NoiseGateActive(a == 1)])
    } else {
        None
    };
    proof {
        assert(events_view(r) =~~= decoded(response@));
    }
    r
}

} // verus!
