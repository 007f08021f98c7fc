//! HyperX Cloud II Wireless: 62-byte reports with the command byte at offset
//! 15. One status report carries mute, side tone and surround sound at once.

use vstd::prelude::*;

use crate::devices::codec::{
    build_command_packet, build_setting_packet, events_view, optional_command_packet,
    optional_setting_packet, packet_view, setting_argument, setting_argument_byte, zeroed, zeros,
    Query, Setting,
};
use crate::devices::event::{charging_status_of, ChargingStatus, DeviceEvent};

verus! {

pub const HYPERX: u16 = 0x0951;

pub const PACKET_SIZE: usize = 62;

/// Offset of the command byte.
pub const CMD_AT: usize = 15;

pub const GET_CHARGING_CMD_ID: u8 = 3;
pub const GET_BATTERY_CMD_ID: u8 = 2;
pub const GET_AUTO_SHUTDOWN_CMD_ID: u8 = 26;
pub const SET_AUTO_SHUTDOWN_CMD_ID: u8 = 24;
/// Also answers side tone and surround sound.
pub const GET_MUTE_CMD_ID: u8 = 1;
pub const SET_SIDE_TONE_ON_CMD_ID: u8 = 25;

pub const CHARGING_REPORT_ID: u8 = 11;
pub const SURROUND_REPORT_ID: u8 = 10;

/// Whether this model claims the given vendor and product ID.
pub open spec fn claims(vendor_id: u16, product_id: u16) -> bool {
    vendor_id == HYPERX && (product_id == 0x1718 || product_id == 0x018B || product_id == 0x0b92)
}

pub fn claims_ids(vendor_id: u16, product_id: u16) -> (r: bool)
    ensures
        r == claims(vendor_id, product_id),
{
    vendor_id == HYPERX && (product_id == 0x1718 || product_id == 0x018B || product_id == 0x0b92)
}

/// The frame every command packet of this model starts from.
pub open spec fn frame() -> Seq<u8> {
    zeros(PACKET_SIZE as nat).update(0, 0x06).update(2, 0x02).update(4, 0x9A).update(
        7,
        0x68,
    ).update(8, 0x4A).update(9, 0x8E).update(10, 0x0A).update(14, 0xBB).update(15, 0x01)
}

pub fn base_frame() -> (r: Vec<u8>)
    ensures
        r@ == frame(),
        r@.len() == PACKET_SIZE,
{
    let mut p = zeroed(PACKET_SIZE);
    p.set(0, 0x06);
    p.set(2, 0x02);
    p.set(4, 0x9A);
    p.set(7, 0x68);
    p.set(8, 0x4A);
    p.set(9, 0x8E);
    p.set(10, 0x0A);
    p.set(14, 0xBB);
    p.set(15, 0x01);
    p
}

/// The packet that asks for the surround sound state; it has a frame of its own.
pub open spec fn surround_frame() -> Seq<u8> {
    zeros(PACKET_SIZE as nat).update(0, 6).update(4, 255).update(7, 104).update(8, 74).update(
        9,
        142,
    )
}

pub fn surround_query() -> (r: Vec<u8>)
    ensures
        r@ == surround_frame(),
{
    let mut p = zeroed(PACKET_SIZE);
    p.set(0, 6);
    p.set(4, 255);
    p.set(7, 104);
    p.set(8, 74);
    p.set(9, 142);
    p
}

/// The command byte that asks `q`.
pub open spec fn query_command(q: Query) -> Option<u8> {
    match q {
        Query::Charging => Some(GET_CHARGING_CMD_ID),
        Query::Battery => Some(GET_BATTERY_CMD_ID),
        Query::AutomaticShutdown => Some(GET_AUTO_SHUTDOWN_CMD_ID),
        Query::Mute => Some(GET_MUTE_CMD_ID),
        _ => None,
    }
}

pub fn query_command_byte(q: Query) -> (r: Option<u8>)
    ensures
        r == query_command(q),
{
    match q {
        Query::Charging => Some(GET_CHARGING_CMD_ID),
        Query::Battery => Some(GET_BATTERY_CMD_ID),
        Query::AutomaticShutdown => Some(GET_AUTO_SHUTDOWN_CMD_ID),
        Query::Mute => Some(GET_MUTE_CMD_ID),
        _ => None,
    }
}

/// The command byte that applies `s`.
pub open spec fn setting_command(s: Setting) -> Option<u8> {
    match s {
        Setting::AutomaticShutdown(_) => Some(SET_AUTO_SHUTDOWN_CMD_ID),
        Setting::SideTone(_) => Some(SET_SIDE_TONE_ON_CMD_ID),
        _ => None,
    }
}

pub fn setting_command_byte(s: Setting) -> (r: Option<u8>)
    ensures
        r == setting_command(s),
{
    match s {
        Setting::AutomaticShutdown(_) => Some(SET_AUTO_SHUTDOWN_CMD_ID),
        Setting::SideTone(_) => Some(SET_SIDE_TONE_ON_CMD_ID),
        _ => None,
    }
}

/// The packet that asks `q`.
pub open spec fn query_packet(q: Query) -> Option<Seq<u8>> {
    if q == Query::SurroundSound {
        Some(surround_frame())
    } else {
        optional_command_packet(frame(), CMD_AT as int, query_command(q))
    }
}

pub fn encode_get(q: Query) -> (r: Option<Vec<u8>>)
    ensures
        packet_view(r) == query_packet(q),
{
    if q == Query::SurroundSound {
        Some(surround_query())
    } else {
        build_command_packet(base_frame(), CMD_AT, query_command_byte(q))
    }
}

/// The packet that applies `s`.
pub open spec fn setting_packet(s: Setting) -> Option<Seq<u8>> {
    optional_setting_packet(frame(), CMD_AT as int, setting_command(s), setting_argument(s))
}

pub fn encode_set(s: Setting) -> (r: Option<Vec<u8>>)
    ensures
        packet_view(r) == setting_packet(s),
{
    build_setting_packet(base_frame(), CMD_AT, setting_command_byte(s), setting_argument_byte(s))
}

/// The packets that bring this model into a state where it answers queries,
/// in the order they are sent.
pub open spec fn startup_sequence() -> Seq<Seq<u8>> {
    seq![
        frame(),
        surround_frame(),
        frame().update(CMD_AT as int, 17),
        frame().update(CMD_AT as int, 29),
        frame().update(CMD_AT as int, 9),
    ]
}

pub fn startup_packets() -> (r: Vec<Vec<u8>>)
    ensures
        r@.map_values(|p: Vec<u8>| p@) == startup_sequence(),
{
    let mut r: Vec<Vec<u8>> = Vec::new();
    r.push(base_frame());
    r.push(surround_query());
    let mut p = base_frame();
    p.set(CMD_AT, 17);
    r.push(p);
    let mut p = base_frame();
    p.set(CMD_AT, 29);
    r.push(p);
    let mut p = base_frame();
    p.set(CMD_AT, 9);
    r.push(p);
    assert(r@.map_values(|p: Vec<u8>| p@) =~= startup_sequence());
    r
}

/// The events of one report. A status report answers the mute query with
/// three values packed as bits: side tone in byte 14, mute in byte 4,
/// surround sound in byte 12.
pub open spec fn decoded(r: Seq<u8>) -> Option<Seq<DeviceEvent>> {
    if r.len() < 15 {
        None
    } else {
        let (id, cmd, a, level, surround, other) = (r[0], r[3], r[4], r[7], r[12], r[14]);
        if cmd == GET_BATTERY_CMD_ID {
            Some(seq![DeviceEvent::BatteryLevel(level)])
        } else if id == CHARGING_REPORT_ID && cmd == GET_CHARGING_CMD_ID {
            Some(seq![DeviceEvent::Charging(charging_status_of(a))])
        } else if cmd == GET_AUTO_SHUTDOWN_CMD_ID {
            Some(seq![DeviceEvent::AutomaticShutdownAfter((a as u64 * 60) as u64)])
        } else if cmd == GET_MUTE_CMD_ID {
            Some(
                seq![
                    DeviceEvent::SideToneOn(other & 16 != 0),
                    DeviceEvent::Muted(a & 4 != 0),
                    DeviceEvent::SurroundSound(surround & 2 != 0),
                ],
            )
        } else if id == SURROUND_REPORT_ID {
            Some(seq![DeviceEvent::SurroundSound(cmd & 3 == 0)])
        } else {
            None
        }
    }
}

/// Decodes one inbound report.
pub fn get_event_from_device_response(response: &[u8]) -> (r: Option<Vec<DeviceEvent>>)
    ensures
        events_view(r) == decoded(response@),
{
    if response.len() < 15 {
        return None;
    }
    let id = response[0];
    let cmd = response[3];
    let a = response[4];
    let level = response[7];
    let surround = response[12];
    let other = response[14];
    let r = if cmd == GET_BATTERY_CMD_ID {
        Some(vec![DeviceEvent::BatteryLevel(level)])
    } else if id == CHARGING_REPORT_ID && cmd == GET_CHARGING_CMD_ID {
        Some(vec![DeviceEvent::Charging(ChargingStatus::from(a))])
    } else if cmd == GET_AUTO_SHUTDOWN_CMD_ID {
        Some(vec![DeviceEvent::AutomaticShutdownAfter(a as u64 * 60)])
    } else if cmd == GET_MUTE_CMD_ID {
        Some(
            vec![
                DeviceEvent::SideToneOn(other & 16 != 0),
                DeviceEvent::Muted(a & 4 != 0),
                DeviceEvent::SurroundSound(surround & 2 != 0),
            ],
        )
    } else if id == SURROUND_REPORT_ID {
        Some(vec![DeviceEvent::SurroundSound(cmd & 3 == 0)])
    } else {
        None
    };
    proof {
        assert(events_view(r) =~~= decoded(response@));
    }
    r
}

} // verus!
