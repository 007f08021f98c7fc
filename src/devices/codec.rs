//! The codec interface: abstract commands to packets, reports to events.
//! Every model is one variant of [`Codec`]; encoding and decoding are pure.

use vstd::prelude::*;

use crate::devices::cloud_alpha_wireless;
use crate::devices::cloud_ii_core_wireless;
use crate::devices::cloud_ii_wireless;
use crate::devices::cloud_ii_wireless_dts;
use crate::devices::cloud_iii_s_wireless;
use crate::devices::cloud_iii_wireless;
use crate::devices::event::DeviceEvent;

verus! {

/// A headset model, as far as its wire protocol goes.
#[derive(Debug, Clone, Copy, PartialEq, Eq, Structural)]
pub enum Codec {
    CloudIIWireless,
    /// `hp_frame`: the unit is HP-branded and takes the short frame.
    CloudIIWirelessDTS { hp_frame: bool },
    CloudIIISWireless,
    CloudIIIWireless,
    CloudAlphaWireless,
    CloudIICoreWireless,
}

/// A value that can be asked of a headset. The order of the variants is the
/// order of an active refresh sweep.
#[derive(Debug, Clone, Copy, PartialEq, Eq, Structural)]
pub enum Query {
    WirelessConnected,
    Charging,
    Battery,
    AutomaticShutdown,
    Mute,
    SurroundSound,
    MicConnected,
    PairingInfo,
    ProductColor,
    SideTone,
    SideToneVolume,
    VoicePrompt,
    Sirk,
    SilentMode,
}

/// A change that can be asked of a headset.
#[derive(Debug, Clone, Copy, PartialEq, Eq, Structural)]
pub enum Setting {
    /// Delay in seconds; the device counts whole minutes.
    AutomaticShutdown(u64),
    Mute(bool),
    SurroundSound(bool),
    SideTone(bool),
    SideToneVolume(u8),
    VoicePrompt(bool),
    SilentMode(bool),
    NoiseGate(bool),
    ResetSirk,
    /// Band index and gain in hundredths of a decibel.
    EqualizerBand(u8, i32),
}

/// `n` zero bytes.
pub open spec fn zeros(n: nat) -> Seq<u8> {
    Seq::new(n, |_i: int| 0u8)
}

/// A command packet: the model's frame with the command byte at `at`.
pub open spec fn command_packet(frame: Seq<u8>, at: int, id: u8) -> Seq<u8> {
    frame.update(at, id)
}

/// A setting packet: the command byte at `at`, its argument right after it.
pub open spec fn setting_packet(frame: Seq<u8>, at: int, id: u8, arg: u8) -> Seq<u8> {
    frame.update(at, id).update(at + 1, arg)
}

pub open spec fn bool_byte(b: bool) -> u8 {
    if b {
        1
    } else {
        0
    }
}

/// The argument byte that most models send with a setting: whole minutes
/// (kept to one byte), a flag as 0 or 1, a volume as it is.
pub open spec fn setting_argument(s: Setting) -> u8 {
    match s {
        Setting::AutomaticShutdown(secs) => ((secs / 60) % 256) as u8,
        Setting::Mute(b) => bool_byte(b),
        Setting::SurroundSound(b) => bool_byte(b),
        Setting::SideTone(b) => bool_byte(b),
        Setting::SideToneVolume(v) => v,
        Setting::VoicePrompt(b) => bool_byte(b),
        Setting::SilentMode(b) => bool_byte(b),
        Setting::NoiseGate(b) => bool_byte(b),
        Setting::ResetSirk => 0,
        Setting::EqualizerBand(_, _) => 0,
    }
}

/// The view of an optional packet.
pub open spec fn packet_view(p: Option<Vec<u8>>) -> Option<Seq<u8>> {
    match p {
        Some(v) => Some(v@),
        None => None,
    }
}

/// The view of an optional event list.
pub open spec fn events_view(p: Option<Vec<DeviceEvent>>) -> Option<Seq<DeviceEvent>> {
    match p {
        Some(v) => Some(v@),
        None => None,
    }
}

/// The packet that asks `q` of model `c`, or `None` where the model cannot answer it.
pub open spec fn query_packet(c: Codec, q: Query) -> Option<Seq<u8>> {
    match c {
        Codec::CloudIIWireless => cloud_ii_wireless::query_packet(q),
        Codec::CloudIIWirelessDTS { hp_frame } => cloud_ii_wireless_dts::query_packet(hp_frame, q),
        Codec::CloudIIISWireless => cloud_iii_s_wireless::query_packet(q),
        Codec::CloudIIIWireless => cloud_iii_wireless::query_packet(q),
        Codec::CloudAlphaWireless => cloud_alpha_wireless::query_packet(q),
        Codec::CloudIICoreWireless => cloud_ii_core_wireless::query_packet(q),
    }
}

/// The packet that applies `s` on model `c`, or `None` where the model cannot do it.
pub open spec fn setting_packet_of(c: Codec, s: Setting) -> Option<Seq<u8>> {
    match c {
        Codec::CloudIIWireless => cloud_ii_wireless::setting_packet(s),
        Codec::CloudIIWirelessDTS { hp_frame } => cloud_ii_wireless_dts::setting_packet(hp_frame, s),
        Codec::CloudIIISWireless => cloud_iii_s_wireless::setting_packet(s),
        Codec::CloudIIIWireless => cloud_iii_wireless::setting_packet(s),
        Codec::CloudAlphaWireless => cloud_alpha_wireless::setting_packet(s),
        Codec::CloudIICoreWireless => cloud_ii_core_wireless::setting_packet(s),
    }
}

/// The events that model `c` reads from report `r`, or `None` for a report
/// of no known shape.
pub open spec fn decoded(c: Codec, r: Seq<u8>) -> Option<Seq<DeviceEvent>> {
    match c {
        Codec::CloudIIWireless => cloud_ii_wireless::decoded(r),
        Codec::CloudIIWirelessDTS { .. } => cloud_ii_wireless_dts::decoded(r),
        Codec::CloudIIISWireless => cloud_iii_s_wireless::decoded(r),
        Codec::CloudIIIWireless => cloud_iii_wireless::decoded(r),
        Codec::CloudAlphaWireless => cloud_alpha_wireless::decoded(r),
        Codec::CloudIICoreWireless => cloud_ii_core_wireless::decoded(r),
    }
}

/// A query packet where the model has a command byte for it.
pub open spec fn optional_command_packet(frame: Seq<u8>, at: int, id: Option<u8>) -> Option<
    Seq<u8>,
> {
    match id {
        Some(id) => Some(command_packet(frame, at, id)),
        None => None,
    }
}

/// A setting packet where the model has a command byte for it.
pub open spec fn optional_setting_packet(frame: Seq<u8>, at: int, id: Option<u8>, arg: u8) -> Option<
    Seq<u8>,
> {
    match id {
        Some(id) => Some(setting_packet(frame, at, id, arg)),
        None => None,
    }
}

/// Builds a query packet where `id` is given.
pub fn build_command_packet(frame: Vec<u8>, at: usize, id: Option<u8>) -> (r: Option<Vec<u8>>)
    requires
        at < frame@.len(),
    ensures
        packet_view(r) == optional_command_packet(frame@, at as int, id),
{
    match id {
        Some(id) => Some(make_command_packet(frame, at, id)),
        None => None,
    }
}

/// Builds a setting packet where `id` is given.
pub fn build_setting_packet(frame: Vec<u8>, at: usize, id: Option<u8>, arg: u8) -> (r: Option<
    Vec<u8>,
>)
    requires
        at + 1 < frame@.len(),
    ensures
        packet_view(r) == optional_setting_packet(frame@, at as int, id, arg),
{
    match id {
        Some(id) => Some(make_setting_packet(frame, at, id, arg)),
        None => None,
    }
}

/// `n` zero bytes.
pub fn zeroed(n: usize) -> (r: Vec<u8>)
    ensures
        r@ == zeros(n as nat),
{
    let mut v: Vec<u8> = Vec::new();
    let mut i: usize = 0;
    while i < n
        invariant
            i <= n,
            v@ == zeros(i as nat),
        decreases n - i,
    {
        v.push(0u8);
        i = i + 1;
        assert(v@ =~= zeros(i as nat));
    }
    v
}

/// Writes the command byte into a frame.
pub fn make_command_packet(frame: Vec<u8>, at: usize, id: u8) -> (r: Vec<u8>)
    requires
        at < frame@.len(),
    ensures
        r@ == command_packet(frame@, at as int, id),
{
    let mut p = frame;
    p.set(at, id);
    p
}

/// Writes the command byte and its argument into a frame.
pub fn make_setting_packet(frame: Vec<u8>, at: usize, id: u8, arg: u8) -> (r: Vec<u8>)
    requires
        at + 1 < frame@.len(),
    ensures
        r@ == setting_packet(frame@, at as int, id, arg),
{
    let len: usize = frame.len();
    assert(at + 1 < len);
    let next: usize = at + 1;
    let mut p = frame;
    p.set(at, id);
    p.set(next, arg);
    p
}

pub fn bool_as_byte(b: bool) -> (r: u8)
    ensures
        r == bool_byte(b),
{
    if b {
        1
    } else {
        0
    }
}

/// The common argument byte of a setting.
pub fn setting_argument_byte(s: Setting) -> (r: u8)
    ensures
        r == setting_argument(s),
{
    match s {
        Setting::AutomaticShutdown(secs) => ((secs / 60) % 256) as u8,
        Setting::Mute(b) => bool_as_byte(b),
        Setting::SurroundSound(b) => bool_as_byte(b),
        Setting::SideTone(b) => bool_as_byte(b),
        Setting::SideToneVolume(v) => v,
        Setting::VoicePrompt(b) => bool_as_byte(b),
        Setting::SilentMode(b) => bool_as_byte(b),
        Setting::NoiseGate(b) => bool_as_byte(b),
        Setting::ResetSirk => 0,
        Setting::EqualizerBand(_, _) => 0,
    }
}

/// Whether the model reports changes on its own, so that it is worth
/// listening between sweeps.
pub open spec fn listens_passively(c: Codec) -> bool {
    match c {
        Codec::CloudIIWireless => false,
        Codec::CloudIIWirelessDTS { .. } => false,
        _ => true,
    }
}

/// Whether an input report must be fetched before every write.
pub open spec fn primes_input_report(c: Codec) -> bool {
    c == Codec::CloudIIWireless
}

/// Whether the model is taken to be connected as soon as it is found; such
/// models cannot report their wireless link.
pub open spec fn connected_on_open(c: Codec) -> bool {
    c == Codec::CloudIIWireless || c == Codec::CloudIICoreWireless
}

/// Packets that bring the model into a state where it answers queries, sent
/// before every active refresh.
pub open spec fn startup_sequence(c: Codec) -> Seq<Seq<u8>> {
    if c == Codec::CloudIIWireless {
        cloud_ii_wireless::startup_sequence()
    } else {
        Seq::empty()
    }
}

/// The model that claims a vendor and product ID, the first in this order:
/// Cloud II, Cloud II DTS, Cloud III S, Cloud III, Cloud Alpha, Cloud II Core.
pub open spec fn model_for(vendor_id: u16, product_id: u16) -> Option<Codec> {
    if cloud_ii_wireless::claims(vendor_id, product_id) {
        Some(Codec::CloudIIWireless)
    } else if cloud_ii_wireless_dts::claims(vendor_id, product_id) {
        Some(Codec::CloudIIWirelessDTS { hp_frame: vendor_id == cloud_ii_wireless_dts::HP })
    } else if cloud_iii_s_wireless::claims(vendor_id, product_id) {
        Some(Codec::CloudIIISWireless)
    } else if cloud_iii_wireless::claims(vendor_id, product_id) {
        Some(Codec::CloudIIIWireless)
    } else if cloud_alpha_wireless::claims(vendor_id, product_id) {
        Some(Codec::CloudAlphaWireless)
    } else if cloud_ii_core_wireless::claims(vendor_id, product_id) {
        Some(Codec::CloudIICoreWireless)
    } else {
        None
    }
}

impl Codec {
    /// The model that claims a vendor and product ID, if any.
    pub fn for_ids(vendor_id: u16, product_id: u16) -> (r: Option<Codec>)
        ensures
            r == model_for(vendor_id, product_id),
    {
        if cloud_ii_wireless::claims_ids(vendor_id, product_id) {
            Some(Codec::CloudIIWireless)
        } else if cloud_ii_wireless_dts::claims_ids(vendor_id, product_id) {
            Some(Codec::CloudIIWirelessDTS { hp_frame: vendor_id == cloud_ii_wireless_dts::HP })
        } else if cloud_iii_s_wireless::claims_ids(vendor_id, product_id) {
            Some(Codec::CloudIIISWireless)
        } else if cloud_iii_wireless::claims_ids(vendor_id, product_id) {
            Some(Codec::CloudIIIWireless)
        } else if cloud_alpha_wireless::claims_ids(vendor_id, product_id) {
            Some(Codec::CloudAlphaWireless)
        } else if cloud_ii_core_wireless::claims_ids(vendor_id, product_id) {
            Some(Codec::CloudIICoreWireless)
        } else {
            None
        }
    }

    /// Whether it is worth listening to this model between sweeps.
    pub fn allow_passive_refresh(&self) -> (r: bool)
        ensures
            r == listens_passively(*self),
    {
        match self {
            Codec::CloudIIWireless => false,
            Codec::CloudIIWirelessDTS { .. } => false,
            _ => true,
        }
    }

    /// Whether an input report must be fetched before every write.
    pub fn primes_input_report(&self) -> (r: bool)
        ensures
            r == primes_input_report(*self),
    {
        match self {
            Codec::CloudIIWireless => true,
            _ => false,
        }
    }

    /// Whether the model is taken to be connected as soon as it is found.
    pub fn connected_on_open(&self) -> (r: bool)
        ensures
            r == connected_on_open(*self),
    {
        match self {
            Codec::CloudIIWireless => true,
            Codec::CloudIICoreWireless => true,
            _ => false,
        }
    }

    /// The packets sent before every active refresh.
    pub fn startup_packets(&self) -> (r: Vec<Vec<u8>>)
        ensures
            r@.map_values(|p: Vec<u8>| p@) == startup_sequence(*self),
    {
        match self {
            Codec::CloudIIWireless => cloud_ii_wireless::startup_packets(),
            _ => {
                let r: Vec<Vec<u8>> = Vec::new();
                assert(r@.map_values(|p: Vec<u8>| p@) =~= Seq::<Seq<u8>>::empty());
                r
            },
        }
    }

    /// The packet that asks `q`, or `None` where this model cannot answer it.
    pub fn encode_get(&self, q: Query) -> (r: Option<Vec<u8>>)
        ensures
            packet_view(r) == query_packet(*self, q),
    {
        match self {
            Codec::CloudIIWireless => cloud_ii_wireless::encode_get(q),
            Codec::CloudIIWirelessDTS { hp_frame } => cloud_ii_wireless_dts::encode_get(*hp_frame, q),
            Codec::CloudIIISWireless => cloud_iii_s_wireless::encode_get(q),
            Codec::CloudIIIWireless => cloud_iii_wireless::encode_get(q),
            Codec::CloudAlphaWireless => cloud_alpha_wireless::encode_get(q),
            Codec::CloudIICoreWireless => cloud_ii_core_wireless::encode_get(q),
        }
    }

    /// The packet that applies `s`, or `None` where this model cannot do it.
    pub fn encode_set(&self, s: Setting) -> (r: Option<Vec<u8>>)
        ensures
            packet_view(r) == setting_packet_of(*self, s),
    {
        match self {
            Codec::CloudIIWireless => cloud_ii_wireless::encode_set(s),
            Codec::CloudIIWirelessDTS { hp_frame } => cloud_ii_wireless_dts::encode_set(*hp_frame, s),
            Codec::CloudIIISWireless => cloud_iii_s_wireless::encode_set(s),
            Codec::CloudIIIWireless => cloud_iii_wireless::encode_set(s),
            Codec::CloudAlphaWireless => cloud_alpha_wireless::encode_set(s),
            Codec::CloudIICoreWireless => cloud_ii_core_wireless::encode_set(s),
        }
    }

    /// The events in one inbound report, or `None` for a report of no known shape.
    pub fn decode(&self, response: &[u8]) -> (r: Option<Vec<DeviceEvent>>)
        ensures
            events_view(r) == decoded(*self, response@),
    {
        match self {
            Codec::CloudIIWireless => cloud_ii_wireless::get_event_from_device_response(response),
            Codec::CloudIIWirelessDTS { .. } => cloud_ii_wireless_dts::get_event_from_device_response(
                response,
            ),
            Codec::CloudIIISWireless => cloud_iii_s_wireless::get_event_from_device_response(
                response,
            ),
            Codec::CloudIIIWireless => cloud_iii_wireless::get_event_from_device_response(
                response,
            ),
            Codec::CloudAlphaWireless => cloud_alpha_wireless::get_event_from_device_response(
                response,
            ),
            Codec::CloudIICoreWireless => cloud_ii_core_wireless::get_event_from_device_response(
                response,
            ),
        }
    }
}

} // verus!
