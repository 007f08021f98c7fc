//! HyperX Cloud II Wireless with DTS: the command byte at offset 3 and its
//! argument after it, in a 20-byte frame on HP-branded units and a 62-byte
//! frame on HyperX-branded ones.

use vstd::prelude::*;

use crate::devices::cloud_ii_wireless;
use crate::devices::codec::{
    build_command_packet, build_setting_packet, events_view, optional_command_packet,
    optional_setting_packet, packet_view, setting_argument, setting_argument_byte, zeroed, zeros,
    Query, Setting,
};
use crate::devices::event::{charging_status_of, color_of, ChargingStatus, Color, DeviceEvent};

verus! {

pub const HP: u16 = 0x03F0;
pub const HYPERX: u16 = 0x0951;

pub const HP_PACKET_SIZE: usize = 20;

/// Offset of the command byte.
pub const CMD_AT: usize = 3;

pub const GET_CHARGING_CMD_ID: u8 = 3;
pub const GET_MIC_CONNECTED_CMD_ID: u8 = 8;
pub const GET_BATTERY_CMD_ID: u8 = 2;
pub const GET_AUTO_SHUTDOWN_CMD_ID: u8 = 7;
pub const SET_AUTO_SHUTDOWN_CMD_ID: u8 = 34;
pub const GET_MUTE_CMD_ID: u8 = 5;
pub const SET_MUTE_CMD_ID: u8 = 32;
pub const GET_PAIRING_CMD_ID: u8 = 9;
pub const GET_PRODUCT_COLOR_CMD_ID: u8 = 14;
pub const GET_SIDE_TONE_ON_CMD_ID: u8 = 6;
pub const SET_SIDE_TONE_ON_CMD_ID: u8 = 33;
pub const GET_SIDE_TONE_VOLUME_CMD_ID: u8 = 11;
pub const SET_SIDE_TONE_VOLUME_CMD_ID: u8 = 35;
pub const GET_VOICE_PROMPT_CMD_ID: u8 = 9;
pub const GET_WIRELESS_STATUS_CMD_ID: u8 = 1;

/// Whether this model claims the given vendor and product ID.
pub open spec fn claims(vendor_id: u16, product_id: u16) -> bool {
    (vendor_id == HP || vendor_id == HYPERX) && (product_id == 0x1718 || product_id == 0x018B
        || product_id == 0x0D93 || product_id == 0x0696)
}

pub fn claims_ids(vendor_id: u16, product_id: u16) -> (r: bool)
    ensures
        r == claims(vendor_id, product_id),
{
    (vendor_id == HP || vendor_id == HYPERX) && (product_id == 0x1718 || product_id == 0x018B
        || product_id == 0x0D93 || product_id == 0x0696)
}

/// The frame of packets on HP-branded units (`hp`) or HyperX-branded ones.
pub open spec fn frame(hp: bool) -> Seq<u8> {
    if hp {
        zeros(HP_PACKET_SIZE as nat).update(0, 0x06).update(1, 0xff).update(2, 0xbb)
    } else {
        cloud_ii_wireless::frame()
    }
}

pub fn base_frame(hp: bool) -> (r: Vec<u8>)
    ensures
        r@ == frame(hp),
        r@.len() >= HP_PACKET_SIZE,
{
    if hp {
        let mut p = zeroed(HP_PACKET_SIZE);
        p.set(0, 0x06);
        p.set(1, 0xff);
        p.set(2, 0xbb);
        p
    } else {
        cloud_ii_wireless::base_frame()
    }
}

/// The command byte that asks `q`.
pub open spec fn query_command(q: Query) -> Option<u8> {
    match q {
        Query::WirelessConnected => Some(GET_WIRELESS_STATUS_CMD_ID),
        Query::Charging => Some(GET_CHARGING_CMD_ID),
        Query::Battery => Some(GET_BATTERY_CMD_ID),
        Query::AutomaticShutdown => Some(GET_AUTO_SHUTDOWN_CMD_ID),
        Query::Mute => Some(GET_MUTE_CMD_ID),
        Query::MicConnected => Some(GET_MIC_CONNECTED_CMD_ID),
        Query::PairingInfo => Some(GET_PAIRING_CMD_ID),
        Query::SideTone => Some(GET_SIDE_TONE_ON_CMD_ID),
        Query::SideToneVolume => Some(GET_SIDE_TONE_VOLUME_CMD_ID),
        _ => None,
    }
}

pub fn query_command_byte(q: Query) -> (r: Option<u8>)
    ensures
        r == query_command(q),
{
    match q {
        Query::WirelessConnected => Some(GET_WIRELESS_STATUS_CMD_ID),
        Query::Charging => Some(GET_CHARGING_CMD_ID),
        Query::Battery => Some(GET_BATTERY_CMD_ID),
        Query::AutomaticShutdown => Some(GET_AUTO_SHUTDOWN_CMD_ID),
        Query::Mute => Some(GET_MUTE_CMD_ID),
        Query::MicConnected => Some(GET_MIC_CONNECTED_CMD_ID),
        Query::PairingInfo => Some(GET_PAIRING_CMD_ID),
        Query::SideTone => Some(GET_SIDE_TONE_ON_CMD_ID),
        Query::SideToneVolume => Some(GET_SIDE_TONE_VOLUME_CMD_ID),
        _ => None,
    }
}

/// The command byte that applies `s`.
pub open spec fn setting_command(s: Setting) -> Option<u8> {
    match s {
        Setting::AutomaticShutdown(_) => Some(SET_AUTO_SHUTDOWN_CMD_ID),
        Setting::Mute(_) => Some(SET_MUTE_CMD_ID),
        Setting::SideTone(_) => Some(SET_SIDE_TONE_ON_CMD_ID),
        Setting::SideToneVolume(_) => Some(SET_SIDE_TONE_VOLUME_CMD_ID),
        _ => None,
    }
}

pub fn setting_command_byte(s: Setting) -> (r: Option<u8>)
    ensures
        r == setting_command(s),
{
    match s {
        Setting::AutomaticShutdown(_) => Some(SET_AUTO_SHUTDOWN_CMD_ID),
        Setting::Mute(_) => Some(SET_MUTE_CMD_ID),
        Setting::SideTone(_) => Some(SET_SIDE_TONE_ON_CMD_ID),
        Setting::SideToneVolume(_) => Some(SET_SIDE_TONE_VOLUME_CMD_ID),
        _ => None,
    }
}

/// The packet that asks `q`.
pub open spec fn query_packet(hp: bool, q: Query) -> Option<Seq<u8>> {
    optional_command_packet(frame(hp), CMD_AT as int, query_command(q))
}

pub fn encode_get(hp: bool, q: Query) -> (r: Option<Vec<u8>>)
    ensures
        packet_view(r) == query_packet(hp, q),
{
    build_command_packet(base_frame(hp), CMD_AT, query_command_byte(q))
}

/// The packet that applies `s`.
pub open spec fn setting_packet(hp: bool, s: Setting) -> Option<Seq<u8>> {
    optional_setting_packet(frame(hp), CMD_AT as int, setting_command(s), setting_argument(s))
}

pub fn encode_set(hp: bool, s: Setting) -> (r: Option<Vec<u8>>)
    ensures
        packet_view(r) == setting_packet(hp, s),
{
    build_setting_packet(base_frame(hp), CMD_AT, setting_command_byte(s), setting_argument_byte(s))
}

/// The events of one report: most answers carry their command byte at
/// offset 3 and the value after it; voice prompt and colour answers carry
/// their command byte at offset 2.
pub open spec fn decoded(r: Seq<u8>) -> Option<Seq<DeviceEvent>> {
    if r.len() < 8 {
        None
    } else {
        let (tag, cmd, a, level) = (r[2], r[3], r[4], r[7]);
        if cmd == GET_CHARGING_CMD_ID {
            Some(seq![DeviceEvent::Charging(charging_status_of(a))])
        } else if cmd == GET_MIC_CONNECTED_CMD_ID {
            Some(seq![DeviceEvent::MicConnected(a == 1)])
        } else if cmd == GET_BATTERY_CMD_ID {
            Some(seq![DeviceEvent::BatteryLevel(level)])
        } else if cmd == GET_AUTO_SHUTDOWN_CMD_ID {
            Some(seq![DeviceEvent::AutomaticShutdownAfter((a as u64 * 60) as u64)])
        } else if cmd == SET_MUTE_CMD_ID || cmd == GET_MUTE_CMD_ID {
            Some(seq![DeviceEvent::Muted(a == 1)])
        } else if cmd == GET_PAIRING_CMD_ID {
            Some(seq![DeviceEvent::PairingInfo(a)])
        } else if cmd == GET_SIDE_TONE_ON_CMD_ID {
            Some(seq![DeviceEvent::SideToneOn(a == 1)])
        } else if cmd == GET_SIDE_TONE_VOLUME_CMD_ID {
            Some(seq![DeviceEvent::SideToneVolume(a)])
        } else if cmd == GET_WIRELESS_STATUS_CMD_ID {
            Some(seq![DeviceEvent::WirelessConnected(a == 1 || a == 4)])
        } else if tag == GET_VOICE_PROMPT_CMD_ID {
            Some(seq![DeviceEvent::VoicePrompt(cmd == 1)])
        } else if tag == GET_PRODUCT_COLOR_CMD_ID {
            Some(seq![DeviceEvent::ProductColor(color_of(cmd))])
        } else {
            None
        }
    }
}

/// Decodes one inbound report.
pub fn get_event_from_device_response(response: &[u8]) -> (r: Option<Vec<DeviceEvent>>)
    ensures
        events_view(r) == decoded(response@),
{
    if response.len() < 8 {
        return None;
    }
    let tag = response[2];
    let cmd = response[3];
    let a = response[4];
    let level = response[7];
    let r = if cmd == GET_CHARGING_CMD_ID {
        Some(vec![DeviceEvent::Charging(ChargingStatus::from(a))])
    } else if cmd == GET_MIC_CONNECTED_CMD_ID {
        Some(vec![DeviceEvent::MicConnected(a == 1)])
    } else if cmd == GET_BATTERY_CMD_ID {
        Some(vec![DeviceEvent::BatteryLevel(level)])
    } else if cmd == GET_AUTO_SHUTDOWN_CMD_ID {
        Some(vec![DeviceEvent::AutomaticShutdownAfter(a as u64 * 60)])
    } else if cmd == SET_MUTE_CMD_ID || cmd == GET_MUTE_CMD_ID {
        Some(vec![DeviceEvent::Muted(a == 1)])
    } else if cmd == GET_PAIRING_CMD_ID {
        Some(vec![DeviceEvent::PairingInfo(a)])
    } else if cmd == GET_SIDE_TONE_ON_CMD_ID {
        Some(vec![DeviceEvent::SideToneOn(a == 1)])
    } else if cmd == GET_SIDE_TONE_VOLUME_CMD_ID {
        Some(vec![DeviceEvent::SideToneVolume(a)])
    } else if cmd == GET_WIRELESS_STATUS_CMD_ID {
        Some(vec![DeviceEvent::WirelessConnected(a == 1 || a == 4)])
    } else if tag == GET_VOICE_PROMPT_CMD_ID {
        Some(vec![DeviceEvent::VoicePrompt(cmd == 1)])
    } else if tag == GET_PRODUCT_COLOR_CMD_ID {
        Some(vec![DeviceEvent::ProductColor(Color::from(cmd))])
    } else {
        None
    };
    proof {
        assert(events_view(r) =~~= decoded(response@));
    }
    r
}

} // verus!
