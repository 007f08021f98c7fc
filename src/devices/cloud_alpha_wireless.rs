//! HyperX Cloud Alpha Wireless: 64-byte reports tagged 33, 187; the command
//! byte follows the tag, its argument after that.

use vstd::prelude::*;

use crate::devices::codec::{
    build_command_packet, build_setting_packet, events_view, optional_command_packet,
    optional_setting_packet, packet_view, setting_argument, setting_argument_byte, zeroed, zeros,
    Query, Setting,
};
use crate::devices::event::{charging_status_of, color_of, ChargingStatus, Color, DeviceEvent};

verus! {

pub const HP: u16 = 0x03F0;

pub const REPORT_ID: u8 = 33;
pub const REPORT_TAG: u8 = 187;

pub const GET_CHARGING_CMD_ID: u8 = 12;
pub const GET_CHARGING_RESPONSE_CODE: u8 = 38;
pub const GET_MIC_CONNECTED_CMD_ID: u8 = 8;
pub const GET_BATTERY_CMD_ID: u8 = 11;
pub const GET_BATTERY_RESPONSE_CODE: u8 = 37;
pub const GET_AUTO_SHUTDOWN_CMD_ID: u8 = 7;
pub const SET_AUTO_SHUTDOWN_CMD_ID: u8 = 18;
pub const GET_MUTE_CMD_ID: u8 = 10;
pub const GET_MUTE_RESPONSE_CODE: u8 = 35;
pub const SET_MUTE_CMD_ID: u8 = 21;
pub const GET_PAIRING_CMD_ID: u8 = 4;
pub const GET_PRODUCT_COLOR_CMD_ID: u8 = 14;
pub const GET_SIDE_TONE_ON_CMD_ID: u8 = 5;
pub const GET_SIDE_TONE_ON_RESPONSE_CODE: u8 = 34;
pub const SET_SIDE_TONE_ON_CMD_ID: u8 = 16;
pub const GET_SIDE_TONE_VOLUME_CMD_ID: u8 = 6;
pub const SET_SIDE_TONE_VOLUME_CMD_ID: u8 = 17;
pub const GET_VOICE_PROMPT_CMD_ID: u8 = 9;
pub const SET_VOICE_PROMPT_CMD_ID: u8 = 19;
pub const GET_WIRELESS_STATUS_CMD_ID: u8 = 3;
pub const GET_WIRELESS_STATUS_RESPONSE_CODE: u8 = 36;

/// Whether this model claims the given vendor and product ID.
pub open spec fn claims(vendor_id: u16, product_id: u16) -> bool {
    vendor_id == HP && (product_id == 0x1743 || product_id == 0x1765 || product_id == 0x098D)
}

pub fn claims_ids(vendor_id: u16, product_id: u16) -> (r: bool)
    ensures
        r == claims(vendor_id, product_id),
{
    vendor_id == HP && (product_id == 0x1743 || product_id == 0x1765 || product_id == 0x098D)
}

pub const PACKET_SIZE: usize = 64;

/// Offset of the command byte.
pub const CMD_AT: usize = 2;

/// The frame every packet of this model starts from.
pub open spec fn frame() -> Seq<u8> {
    zeros(PACKET_SIZE as nat).update(0, REPORT_ID).update(1, REPORT_TAG)
}

pub fn base_frame() -> (r: Vec<u8>)
    ensures
        r@ == frame(),
        r@.len() == PACKET_SIZE,
{
    let mut p = zeroed(PACKET_SIZE);
    p.set(0, REPORT_ID);
    p.set(1, REPORT_TAG);
    p
}

/// The command byte that asks `q`.
pub open spec fn query_command(q: Query) -> Option<u8> {
    match q {
        Query::WirelessConnected => Some(GET_WIRELESS_STATUS_CMD_ID),
        Query::Charging => Some(GET_CHARGING_CMD_ID),
        Query::Battery => Some(GET_BATTERY_CMD_ID),
        Query::AutomaticShutdown => Some(GET_AUTO_SHUTDOWN_CMD_ID),
        Query::Mute => Some(GET_MUTE_CMD_ID),
        Query::MicConnected => Some(GET_MIC_CONNECTED_CMD_ID),
        Query::PairingInfo => Some(GET_PAIRING_CMD_ID),
        Query::ProductColor => Some(GET_PRODUCT_COLOR_CMD_ID),
        Query::SideTone => Some(GET_SIDE_TONE_ON_CMD_ID),
        Query::SideToneVolume => Some(GET_SIDE_TONE_VOLUME_CMD_ID),
        Query::VoicePrompt => Some(GET_VOICE_PROMPT_CMD_ID),
        _ => None,
    }
}

pub fn query_command_byte(q: Query) -> (r: Option<u8>)
    ensures
        r == query_command(q),
{
    match q {
        Query::WirelessConnected => Some(GET_WIRELESS_STATUS_CMD_ID),
        Query::Charging => Some(GET_CHARGING_CMD_ID),
        Query::Battery => Some(GET_BATTERY_CMD_ID),
        Query::AutomaticShutdown => Some(GET_AUTO_SHUTDOWN_CMD_ID),
        Query::Mute => Some(GET_MUTE_CMD_ID),
        Query::MicConnected => Some(GET_MIC_CONNECTED_CMD_ID),
        Query::PairingInfo => Some(GET_PAIRING_CMD_ID),
        Query::ProductColor => Some(GET_PRODUCT_COLOR_CMD_ID),
        Query::SideTone => Some(GET_SIDE_TONE_ON_CMD_ID),
        Query::SideToneVolume => Some(GET_SIDE_TONE_VOLUME_CMD_ID),
        Query::VoicePrompt => Some(GET_VOICE_PROMPT_CMD_ID),
        _ => None,
    }
}

/// The command byte that applies `s`.
pub open spec fn setting_command(s: Setting) -> Option<u8> {
    match s {
        Setting::AutomaticShutdown(_) => Some(SET_AUTO_SHUTDOWN_CMD_ID),
        Setting::Mute(_) => Some(SET_MUTE_CMD_ID),
        Setting::SideTone(_) => Some(SET_SIDE_TONE_ON_CMD_ID),
        Setting::SideToneVolume(_) => Some(SET_SIDE_TONE_VOLUME_CMD_ID),
        Setting::VoicePrompt(_) => Some(SET_VOICE_PROMPT_CMD_ID),
        _ => None,
    }
}

pub fn setting_command_byte(s: Setting) -> (r: Option<u8>)
    ensures
        r == setting_command(s),
{
    match s {
        Setting::AutomaticShutdown(_) => Some(SET_AUTO_SHUTDOWN_CMD_ID),
        Setting::Mute(_) => Some(SET_MUTE_CMD_ID),
        Setting::SideTone(_) => Some(SET_SIDE_TONE_ON_CMD_ID),
        Setting::SideToneVolume(_) => Some(SET_SIDE_TONE_VOLUME_CMD_ID),
        Setting::VoicePrompt(_) => Some(SET_VOICE_PROMPT_CMD_ID),
        _ => None,
    }
}

/// The packet that asks `q`.
pub open spec fn query_packet(q: Query) -> Option<Seq<u8>> {
    optional_command_packet(frame(), CMD_AT as int, query_command(q))
}

pub fn encode_get(q: Query) -> (r: Option<Vec<u8>>)
    ensures
        packet_view(r) == query_packet(q),
{
    build_command_packet(base_frame(), CMD_AT, query_command_byte(q))
}

/// The packet that applies `s`.
pub open spec fn setting_packet(s: Setting) -> Option<Seq<u8>> {
    optional_setting_packet(frame(), CMD_AT as int, setting_command(s), setting_argument(s))
}

pub fn encode_set(s: Setting) -> (r: Option<Vec<u8>>)
    ensures
        packet_view(r) == setting_packet(s),
{
    build_setting_packet(base_frame(), CMD_AT, setting_command_byte(s), setting_argument_byte(s))
}

/// The events of one report. A setting's command byte is also echoed back
/// with the value the device now holds.
pub open spec fn decoded(r: Seq<u8>) -> Option<Seq<DeviceEvent>> {
    if r.len() < 4 || r[0] != REPORT_ID || r[1] != REPORT_TAG {
        None
    } else {
        let (cmd, a) = (r[2], r[3]);
        if cmd == GET_CHARGING_RESPONSE_CODE || cmd == GET_CHARGING_CMD_ID {
            Some(seq![DeviceEvent::Charging(charging_status_of(a))])
        } else if cmd == GET_MIC_CONNECTED_CMD_ID {
            Some(seq![DeviceEvent::MicConnected(a == 1)])
        } else if cmd == GET_BATTERY_RESPONSE_CODE || cmd == GET_BATTERY_CMD_ID {
            Some(seq![DeviceEvent::BatteryLevel(a)])
        } else if cmd == SET_AUTO_SHUTDOWN_CMD_ID || cmd == GET_AUTO_SHUTDOWN_CMD_ID {
            Some(seq![DeviceEvent::AutomaticShutdownAfter((a as u64 * 60) as u64)])
        } else if cmd == SET_MUTE_CMD_ID || cmd == GET_MUTE_RESPONSE_CODE || cmd == GET_MUTE_CMD_ID {
            Some(seq![DeviceEvent::Muted(a == 1)])
        } else if cmd == GET_PAIRING_CMD_ID {
            Some(seq![DeviceEvent::PairingInfo(a)])
        } else if cmd == SET_SIDE_TONE_ON_CMD_ID || cmd == GET_SIDE_TONE_ON_RESPONSE_CODE
            || cmd == GET_SIDE_TONE_ON_CMD_ID {
            Some(seq![DeviceEvent::SideToneOn(a == 1)])
        } else if cmd == SET_SIDE_TONE_VOLUME_CMD_ID || cmd == GET_SIDE_TONE_VOLUME_CMD_ID {
            Some(seq![DeviceEvent::SideToneVolume(a)])
        } else if cmd == GET_WIRELESS_STATUS_RESPONSE_CODE || cmd == GET_WIRELESS_STATUS_CMD_ID {
            Some(seq![DeviceEvent::WirelessConnected(a == 2)])
        } else if cmd == SET_VOICE_PROMPT_CMD_ID || cmd == GET_VOICE_PROMPT_CMD_ID {
            Some(seq![DeviceEvent::VoicePrompt(a == 1)])
        } else if cmd == GET_PRODUCT_COLOR_CMD_ID {
            Some(seq![DeviceEvent::ProductColor(color_of(a))])
        } else {
            None
        }
    }
}

/// Decodes one inbound report.
pub fn get_event_from_device_response(response: &[u8]) -> (r: Option<Vec<DeviceEvent>>)
    ensures
        events_view(r) == decoded(response@),
{
    if response.len() < 4 || response[0] != REPORT_ID || response[1] != REPORT_TAG {
        return None;
    }
    let cmd = response[2];
    let a = response[3];
    let r = if cmd == GET_CHARGING_RESPONSE_CODE || cmd == GET_CHARGING_CMD_ID {
        Some(vec![DeviceEvent::Charging(ChargingStatus::from(a))])
    } else if cmd == GET_MIC_CONNECTED_CMD_ID {
        Some(vec![DeviceEvent::MicConnected(a == 1)])
    } else if cmd == GET_BATTERY_RESPONSE_CODE || cmd == GET_BATTERY_CMD_ID {
        Some(vec![DeviceEvent::BatteryLevel(a)])
    } else if cmd == SET_AUTO_SHUTDOWN_CMD_ID || cmd == GET_AUTO_SHUTDOWN_CMD_ID {
        Some(vec![DeviceEvent::AutomaticShutdownAfter(a as u64 * 60)])
    } else if cmd == SET_MUTE_CMD_ID || cmd == GET_MUTE_RESPONSE_CODE || cmd == GET_MUTE_CMD_ID {
        Some(vec![DeviceEvent::Muted(a == 1)])
    } else if cmd == GET_PAIRING_CMD_ID {
        Some(vec![DeviceEvent::PairingInfo(a)])
    } else if cmd == SET_SIDE_TONE_ON_CMD_ID || cmd == GET_SIDE_TONE_ON_RESPONSE_CODE
            || cmd == GET_SIDE_TONE_ON_CMD_ID {
        Some(vec![DeviceEvent::SideToneOn(a == 1)])
    } else if cmd == SET_SIDE_TONE_VOLUME_CMD_ID || cmd == GET_SIDE_TONE_VOLUME_CMD_ID {
        Some(vec![DeviceEvent::SideToneVolume(a)])
    } else if cmd == GET_WIRELESS_STATUS_RESPONSE_CODE || cmd == GET_WIRELESS_STATUS_CMD_ID {
        Some(vec![DeviceEvent::WirelessConnected(a == 2)])
    } else if cmd == SET_VOICE_PROMPT_CMD_ID || cmd == GET_VOICE_PROMPT_CMD_ID {
        Some(vec![DeviceEvent::VoicePrompt(a == 1)])
    } else if cmd == GET_PRODUCT_COLOR_CMD_ID {
        Some(vec![DeviceEvent::ProductColor(Color::from(a))])
    } else {
        None
    };
    proof {
        assert(events_view(r) =~~= decoded(response@));
    }
    r
}

} // verus!
