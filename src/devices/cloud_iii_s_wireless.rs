//! HyperX Cloud III S Wireless: queries in 64-byte frames with the command
//! byte at offset 5; the microphone is switched with a short 20-byte report,
//! and automatic shutdown and the equalizer are set with their own reports.

use vstd::prelude::*;

use crate::devices::codec::{
    build_command_packet, events_view, optional_command_packet, packet_view, zeroed, zeros, Query,
    Setting,
};
use crate::devices::event::{charging_status_of, color_of, ChargingStatus, Color, DeviceEvent};

verus! {

pub const HP: u16 = 0x03F0;

pub const PACKET_SIZE: usize = 64;

pub const MIC_PACKET_SIZE: usize = 20;

pub const MIC_HEADER: u8 = 0x05;

pub const MIC_ON_CMD: u8 = 0x00;

pub const MIC_OFF_CMD: u8 = 0x02;

pub const SET_REPORT_ID: u8 = 0x0c;

pub const AUTO_SHUTDOWN_CMD: u8 = 0x4a;

pub const EQ_CMD: u8 = 0x5f;

/// The highest equalizer band index (16 kHz).
pub const MAX_EQ_BAND: u8 = 9;

/// Equalizer gain bound, in hundredths of a decibel.
pub const EQ_LIMIT: i32 = 1200;

pub const RESPONSE_ID: u8 = 0x0C;

pub const NOTIFICATION_ID: u8 = 0x0D;

pub const CONSUMER_CONTROL_HEADER: u8 = 0x0f;

/// Offset of the command byte in a query.
pub const CMD_AT: usize = 5;

pub const BATTERY_COMMAND_ID: u8 = 0x06;
pub const DONGLE_CONNECTED_COMMAND_ID: u8 = 0x02;
pub const COLOR_COMMAND_ID: u8 = 0x4D;
pub const CHARGE_STATE_COMMAND_ID: u8 = 0x48;
pub const GET_MIC_MUTE_COMMAND_ID: u8 = 0x04;
pub const GET_SIDE_TONE_COMMAND_ID: u8 = 0x16;
pub const GET_AUTO_POWER_OFF_COMMAND_ID: u8 = 0x4B;
pub const GET_VOICE_PROMPT_COMMAND_ID: u8 = 0x14;

/// Whether this model claims the given vendor and product ID.
pub open spec fn claims(vendor_id: u16, product_id: u16) -> bool {
    vendor_id == HP && product_id == 0x06BE
}

pub fn claims_ids(vendor_id: u16, product_id: u16) -> (r: bool)
    ensures
        r == claims(vendor_id, product_id),
{
    vendor_id == HP && product_id == 0x06BE
}

/// The frame every query of this model starts from.
pub open spec fn frame() -> Seq<u8> {
    zeros(PACKET_SIZE as nat).update(0, 0x0C).update(1, 0x02).update(2, 0x03).update(3, 0x01)
}

pub fn base_frame() -> (r: Vec<u8>)
    ensures
        r@ == frame(),
        r@.len() == PACKET_SIZE,
{
    let mut p = zeroed(PACKET_SIZE);
    p.set(0, 0x0C);
    p.set(1, 0x02);
    p.set(2, 0x03);
    p.set(3, 0x01);
    p
}

/// The frame of a setting report; its command byte is at offset 5.
pub open spec fn set_frame(cmd: u8) -> Seq<u8> {
    zeros(PACKET_SIZE as nat).update(0, SET_REPORT_ID).update(1, 0x02).update(2, 0x03).update(
        5,
        cmd,
    )
}

fn set_report(cmd: u8) -> (r: Vec<u8>)
    ensures
        r@ == set_frame(cmd),
        r@.len() == PACKET_SIZE,
{
    let mut p = zeroed(PACKET_SIZE);
    p.set(0, SET_REPORT_ID);
    p.set(1, 0x02);
    p.set(2, 0x03);
    p.set(5, cmd);
    p
}

/// The command byte that asks `q`.
pub open spec fn query_command(q: Query) -> Option<u8> {
    match q {
        Query::WirelessConnected => Some(DONGLE_CONNECTED_COMMAND_ID),
        Query::Charging => Some(CHARGE_STATE_COMMAND_ID),
        Query::Battery => Some(BATTERY_COMMAND_ID),
        Query::AutomaticShutdown => Some(GET_AUTO_POWER_OFF_COMMAND_ID),
        Query::Mute => Some(GET_MIC_MUTE_COMMAND_ID),
        Query::ProductColor => Some(COLOR_COMMAND_ID),
        Query::SideTone => Some(GET_SIDE_TONE_COMMAND_ID),
        Query::VoicePrompt => Some(GET_VOICE_PROMPT_COMMAND_ID),
        _ => None,
    }
}

pub fn query_command_byte(q: Query) -> (r: Option<u8>)
    ensures
        r == query_command(q),
{
    match q {
        Query::WirelessConnected => Some(DONGLE_CONNECTED_COMMAND_ID),
        Query::Charging => Some(CHARGE_STATE_COMMAND_ID),
        Query::Battery => Some(BATTERY_COMMAND_ID),
        Query::AutomaticShutdown => Some(GET_AUTO_POWER_OFF_COMMAND_ID),
        Query::Mute => Some(GET_MIC_MUTE_COMMAND_ID),
        Query::ProductColor => Some(COLOR_COMMAND_ID),
        Query::SideTone => Some(GET_SIDE_TONE_COMMAND_ID),
        Query::VoicePrompt => Some(GET_VOICE_PROMPT_COMMAND_ID),
        _ => None,
    }
}

/// The packet that asks `q`.
pub open spec fn query_packet(q: Query) -> Option<Seq<u8>> {
    optional_command_packet(frame(), CMD_AT as int, query_command(q))
}

pub fn encode_get(q: Query) -> (r: Option<Vec<u8>>)
    ensures
        packet_view(r) == query_packet(q),
{
    build_command_packet(base_frame(), CMD_AT, query_command_byte(q))
}

/// The microphone report: bit 1 of its second byte set means muted.
pub open spec fn mic_packet(mute: bool) -> Seq<u8> {
    zeros(MIC_PACKET_SIZE as nat).update(0, MIC_HEADER).update(
        1,
        if mute {
            MIC_OFF_CMD
        } else {
            MIC_ON_CMD
        },
    )
}

pub fn make_mic_packet(mute: bool) -> (r: Vec<u8>)
    ensures
        r@ == mic_packet(mute),
{
    let mut packet = zeroed(MIC_PACKET_SIZE);
    packet.set(0, MIC_HEADER);
    packet.set(
        1,
        if mute {
            MIC_OFF_CMD
        } else {
            MIC_ON_CMD
        },
    );
    packet
}

/// The shutdown delay the device is sent: whole minutes, as seconds, kept
/// to 16 bits.
pub open spec fn shutdown_seconds(minutes: u64) -> int {
    (minutes * 60) % 0x10000
}

/// The automatic shutdown report: the delay as 16-bit big-endian seconds.
pub open spec fn auto_shutdown_packet(minutes: u64) -> Seq<u8> {
    set_frame(AUTO_SHUTDOWN_CMD).update(6, (shutdown_seconds(minutes) / 256) as u8).update(
        7,
        (shutdown_seconds(minutes) % 256) as u8,
    )
}

pub fn make_auto_shutdown_packet(minutes: u64) -> (r: Vec<u8>)
    requires
        minutes <= u64::MAX / 60,
    ensures
        r@ == auto_shutdown_packet(minutes),
{
    let mut packet = set_report(AUTO_SHUTDOWN_CMD);
    let seconds: u64 = (minutes * 60) % 0x10000;
    packet.set(6, (seconds / 256) as u8);
    packet.set(7, (seconds % 256) as u8);
    packet
}

/// A gain held to the range the device accepts.
pub open spec fn clamped_gain(centi_db: i32) -> int {
    if centi_db < -EQ_LIMIT {
        -EQ_LIMIT as int
    } else if centi_db > EQ_LIMIT {
        EQ_LIMIT as int
    } else {
        centi_db as int
    }
}

/// A signed 16-bit value in two's complement.
pub open spec fn twos_complement(v: int) -> int {
    if v < 0 {
        v + 0x10000
    } else {
        v
    }
}

/// The equalizer report for one band: band index, then the clamped gain in
/// hundredths of a decibel as a signed 16-bit big-endian value.
pub open spec fn eq_packet(band: u8, centi_db: i32) -> Seq<u8> {
    set_frame(EQ_CMD).update(6, band).update(
        7,
        (twos_complement(clamped_gain(centi_db)) / 256) as u8,
    ).update(8, (twos_complement(clamped_gain(centi_db)) % 256) as u8)
}

/// The band and gain that an equalizer report carries.
pub open spec fn eq_band_of(p: Seq<u8>) -> (u8, int) {
    let raw = p[7] as int * 256 + p[8] as int;
    (p[6], if raw >= 0x8000 {
        raw - 0x10000
    } else {
        raw
    })
}

pub fn make_eq_packet(band: u8, centi_db: i32) -> (r: Vec<u8>)
    ensures
        r@ == eq_packet(band, centi_db),
{
    let mut packet = set_report(EQ_CMD);
    let gain: i32 = if centi_db < -EQ_LIMIT {
        -EQ_LIMIT
    } else if centi_db > EQ_LIMIT {
        EQ_LIMIT
    } else {
        centi_db
    };
    let bits: u32 = if gain < 0 {
        (gain + 0x10000) as u32
    } else {
        gain as u32
    };
    packet.set(6, band);
    packet.set(7, (bits / 256) as u8);
    packet.set(8, (bits % 256) as u8);
    packet
}

/// The packet that applies `s`.
pub open spec fn setting_packet(s: Setting) -> Option<Seq<u8>> {
    match s {
        Setting::Mute(m) => Some(mic_packet(m)),
        Setting::AutomaticShutdown(secs) => Some(auto_shutdown_packet(secs / 60)),
        Setting::EqualizerBand(band, centi_db) => if band <= MAX_EQ_BAND {
            Some(eq_packet(band, centi_db))
        } else {
            None
        },
        _ => None,
    }
}

pub fn encode_set(s: Setting) -> (r: Option<Vec<u8>>)
    ensures
        packet_view(r) == setting_packet(s),
{
    match s {
        Setting::Mute(m) => Some(make_mic_packet(m)),
        Setting::AutomaticShutdown(secs) => Some(make_auto_shutdown_packet(secs / 60)),
        Setting::EqualizerBand(band, centi_db) => if band <= MAX_EQ_BAND {
            Some(make_eq_packet(band, centi_db))
        } else {
            None
        },
        _ => None,
    }
}

/// The events of an answer to a query (report 0x0C): the command byte at
/// offset 5, the value at 6. A value of 0xFF means the device has none.
pub open spec fn response_events(r: Seq<u8>) -> Option<Seq<DeviceEvent>> {
    let (cmd, v) = (r[5], r[6]);
    if v == 0xFF {
        None
    } else if cmd == DONGLE_CONNECTED_COMMAND_ID {
        Some(seq![DeviceEvent::WirelessConnected(v == 2)])
    } else if cmd == GET_MIC_MUTE_COMMAND_ID {
        Some(seq![DeviceEvent::Muted(v == 1)])
    } else if cmd == BATTERY_COMMAND_ID {
        Some(seq![DeviceEvent::BatteryLevel(v)])
    } else if cmd == GET_VOICE_PROMPT_COMMAND_ID {
        Some(seq![DeviceEvent::VoicePrompt(v == 1)])
    } else if cmd == GET_SIDE_TONE_COMMAND_ID {
        Some(seq![DeviceEvent::SideToneOn(v == 1)])
    } else if cmd == CHARGE_STATE_COMMAND_ID {
        Some(seq![DeviceEvent::Charging(charging_status_of(v))])
    } else if cmd == GET_AUTO_POWER_OFF_COMMAND_ID {
        Some(seq![DeviceEvent::AutomaticShutdownAfter((v as u64 * 256 + r[7] as u64) as u64)])
    } else if cmd == COLOR_COMMAND_ID {
        Some(seq![DeviceEvent::ProductColor(color_of(v))])
    } else {
        None
    }
}

/// The events of a report the device pushes (report 0x0D): the kind at
/// offset 4, the value at 5.
pub open spec fn notification_events(r: Seq<u8>) -> Option<Seq<DeviceEvent>> {
    let (kind, v) = (r[4], r[5]);
    if kind == 1 {
        Some(seq![DeviceEvent::BatteryLevel(v)])
    } else if kind == 3 {
        Some(seq![DeviceEvent::Muted(v == 1)])
    } else if kind == 5 {
        Some(seq![DeviceEvent::SideToneOn(v == 1)])
    } else if kind == 10 {
        Some(seq![DeviceEvent::Charging(charging_status_of(v))])
    } else if kind == 12 {
        Some(seq![DeviceEvent::WirelessConnected(v == 1)])
    } else {
        None
    }
}

/// The events of one report, by its first byte. Button reports carry no state.
pub open spec fn decoded(r: Seq<u8>) -> Option<Seq<DeviceEvent>> {
    if r.len() < 2 {
        None
    } else if r[0] == MIC_HEADER {
        Some(seq![DeviceEvent::Muted(r[1] & 0x02 != 0)])
    } else if r[0] == RESPONSE_ID && r.len() >= 8 {
        response_events(r)
    } else if r[0] == NOTIFICATION_ID && r.len() >= 6 {
        notification_events(r)
    } else {
        None
    }
}

fn parse_response(response: &[u8]) -> (r: Option<Vec<DeviceEvent>>)
    requires
        response@.len() >= 8,
    ensures
        events_view(r) == response_events(response@),
{
    let cmd = response[5];
    let v = response[6];
    let r = if v == 0xFF {
        None
    } else if cmd == DONGLE_CONNECTED_COMMAND_ID {
        Some(vec![DeviceEvent::WirelessConnected(v == 2)])
    } else if cmd == GET_MIC_MUTE_COMMAND_ID {
        Some(vec![DeviceEvent::Muted(v == 1)])
    } else if cmd == BATTERY_COMMAND_ID {
        Some(vec![DeviceEvent::BatteryLevel(v)])
    } else if cmd == GET_VOICE_PROMPT_COMMAND_ID {
        Some(vec![DeviceEvent::VoicePrompt(v == 1)])
    } else if cmd == GET_SIDE_TONE_COMMAND_ID {
        Some(vec![DeviceEvent::SideToneOn(v == 1)])
    } else if cmd == CHARGE_STATE_COMMAND_ID {
        Some(vec![DeviceEvent::Charging(ChargingStatus::from(v))])
    } else if cmd == GET_AUTO_POWER_OFF_COMMAND_ID {
        Some(
            vec![DeviceEvent::AutomaticShutdownAfter(parse_automatic_shutdown_payload(v, response[7]))],
        )
    } else if cmd == COLOR_COMMAND_ID {
        Some(vec![DeviceEvent::ProductColor(Color::from(v))])
    } else {
        None
    };
    proof {
        assert(events_view(r) =~~= response_events(response@));
    }
    r
}

/// A 16-bit big-endian count of seconds.
fn parse_automatic_shutdown_payload(high: u8, low: u8) -> (r: u64)
    ensures
        r == high as u64 * 256 + low as u64,
{
    high as u64 * 256 + low as u64
}

fn parse_notification(response: &[u8]) -> (r: Option<Vec<DeviceEvent>>)
    requires
        response@.len() >= 6,
    ensures
        events_view(r) == notification_events(response@),
{
    let kind = response[4];
    let v = response[5];
    let r = if kind == 1 {
        Some(vec![DeviceEvent::BatteryLevel(v)])
    } else if kind == 3 {
        Some(vec![DeviceEvent::Muted(v == 1)])
    } else if kind == 5 {
        Some(vec![DeviceEvent::SideToneOn(v == 1)])
    } else if kind == 10 {
        Some(vec![DeviceEvent::Charging(ChargingStatus::from(v))])
    } else if kind == 12 {
        Some(vec![DeviceEvent::WirelessConnected(v == 1)])
    } else {
        None
    };
    proof {
        assert(events_view(r) =~~= notification_events(response@));
    }
    r
}

/// Decodes one inbound report.
pub fn get_event_from_device_response(response: &[u8]) -> (r: Option<Vec<DeviceEvent>>)
    ensures
        events_view(r) == decoded(response@),
{
    if response.len() < 2 {
        None
    } else if response[0] == MIC_HEADER {
        let r = Some(vec![DeviceEvent::Muted(response[1] & 0x02 != 0)]);
        proof {
            assert(events_view(r) =~~= decoded(response@));
        }
        r
    } else if response[0] == RESPONSE_ID && response.len() >= 8 {
        parse_response(response)
    } else if response[0] == NOTIFICATION_ID && response.len() >= 6 {
        parse_notification(response)
    } else {
        None
    }
}

} // verus!
