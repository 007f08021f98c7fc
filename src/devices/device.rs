//! A connected headset: its codec, its state, and the capability prober.

use vstd::prelude::*;

use crate::devices::codec::{
    connected_on_open, listens_passively, model_for, packet_view, query_packet, setting_packet_of,
    Codec, Query, Setting,
};
use crate::devices::event::DeviceEvent;
use crate::devices::state::{values_unknown, Capabilities, DeviceState};

verus! {

/// Why a connection could not be made or kept.
#[derive(Debug)]
pub enum DeviceError {
    /// The transport failed; the text is its own message.
    HidError(String),
    /// No attached device is claimed by any known model.
    NoDeviceFound,
    /// The headset did not answer; it is likely switched off.
    HeadSetOff,
    /// Not one query of a sweep was answered.
    NoResponse,
    /// A report of no known shape: its first bytes and its length.
    UnknownResponse([u8; 8], usize),
}

/// The capability flags of a model: a setting is supported iff the codec
/// builds a packet for it from a placeholder value.
pub open spec fn probe(c: Codec) -> Capabilities {
    Capabilities {
        can_set_mute: setting_packet_of(c, Setting::Mute(false)) is Some,
        can_set_surround_sound: setting_packet_of(c, Setting::SurroundSound(false)) is Some,
        can_set_side_tone: setting_packet_of(c, Setting::SideTone(false)) is Some,
        can_set_automatic_shutdown: setting_packet_of(c, Setting::AutomaticShutdown(0)) is Some,
        can_set_side_tone_volume: setting_packet_of(c, Setting::SideToneVolume(0)) is Some,
        can_set_voice_prompt: setting_packet_of(c, Setting::VoicePrompt(false)) is Some,
        can_set_silent_mode: setting_packet_of(c, Setting::SilentMode(false)) is Some,
        can_set_equalizer: setting_packet_of(c, Setting::EqualizerBand(0, 0)) is Some,
    }
}

/// The equalizer packets for a list of bands, one per band in order; `None`
/// for an empty list or where any band has no packet.
pub open spec fn equalizer_packets(c: Codec, bands: Seq<(u8, i32)>) -> Option<Seq<Seq<u8>>> {
    if bands.len() > 0 && forall|j: int|
        0 <= j < bands.len() ==> setting_packet_of(
            c,
            Setting::EqualizerBand(#[trigger] bands[j].0, bands[j].1),
        ) is Some {
        Some(
            Seq::new(
                bands.len(),
                |j: int| setting_packet_of(c, Setting::EqualizerBand(bands[j].0, bands[j].1))->Some_0,
            ),
        )
    } else {
        None
    }
}

/// The index of the first listed device that some model claims, and that model.
pub open spec fn first_compatible(ids: Seq<(u16, u16)>) -> Option<(int, Codec)>
    decreases ids.len(),
{
    if ids.len() == 0 {
        None
    } else {
        match first_compatible(ids.drop_last()) {
            Some(found) => Some(found),
            None => match model_for(ids.last().0, ids.last().1) {
                Some(c) => Some((ids.len() - 1, c)),
                None => None,
            },
        }
    }
}

/// Picks, among the attached devices given by vendor and product ID in
/// enumeration order, the first one a known model claims.
pub fn select_compatible_device(ids: &Vec<(u16, u16)>) -> (r: Result<(usize, Codec), DeviceError>)
    ensures
        match first_compatible(ids@) {
            Some((i, c)) => r matches Ok((j, d)) && j == i && d == c,
            None => r matches Err(DeviceError::NoDeviceFound),
        },
{
    let mut i: usize = 0;
    while i < ids.len()
        invariant
            i <= ids.len(),
            first_compatible(ids@.subrange(0, i as int)) is None,
        decreases ids.len() - i,
    {
        let (vendor_id, product_id) = ids[i];
        assert(ids@.subrange(0, i + 1).drop_last() =~= ids@.subrange(0, i as int));
        if let Some(c) = Codec::for_ids(vendor_id, product_id) {
            proof {
                lemma_first_compatible_extends(ids@, i as int);
            }
            return Ok((i, c));
        }
        i = i + 1;
    }
    assert(ids@.subrange(0, ids.len() as int) =~= ids@);
    Err(DeviceError::NoDeviceFound)
}

/// The first match in a prefix is the first match of the whole list.
proof fn lemma_first_compatible_extends(ids: Seq<(u16, u16)>, i: int)
    requires
        0 <= i < ids.len(),
        first_compatible(ids.subrange(0, i)) is None,
        model_for(ids[i].0, ids[i].1) is Some,
    ensures
        first_compatible(ids) == Some((i, model_for(ids[i].0, ids[i].1)->Some_0)),
{
    lemma_first_compatible_prefix(ids, ids.len() as int, i);
    assert(ids.subrange(0, ids.len() as int) =~= ids);
}

/// Once a prefix has a match, every longer prefix has the same one.
proof fn lemma_first_compatible_prefix(ids: Seq<(u16, u16)>, n: int, i: int)
    requires
        0 <= i < n <= ids.len(),
        first_compatible(ids.subrange(0, i)) is None,
        model_for(ids[i].0, ids[i].1) is Some,
    ensures
        first_compatible(ids.subrange(0, n)) == Some((i, model_for(ids[i].0, ids[i].1)->Some_0)),
    decreases n - i,
{
    if n == i + 1 {
        assert(ids.subrange(0, n).drop_last() =~= ids.subrange(0, i));
    } else {
        lemma_first_compatible_prefix(ids, n - 1, i);
        assert(ids.subrange(0, n).drop_last() =~= ids.subrange(0, n - 1));
    }
}

/// A headset: the codec of its model and the state of its connection.
#[derive(Debug)]
pub struct Device {
    pub codec: Codec,
    pub state: DeviceState,
}

impl Device {
    /// Pairs a codec with the state of a resolved device. Models that cannot
    /// report their link are marked connected.
    pub fn new_from_state(codec: Codec, state: DeviceState) -> (r: Device)
        ensures
            r.codec == codec,
            r.state == (if connected_on_open(codec) {
                DeviceState { connected: Some(true), ..state }
            } else {
                state
            }),
    {
        let mut state = state;
        if codec.connected_on_open() {
            state.connected = Some(true);
        }
        Device { codec, state }
    }

    /// A fresh connection to a resolved device, with its capabilities probed.
    pub fn connect(codec: Codec, vendor_id: u16, product_id: u16, device_name: Option<String>) -> (r:
        Device)
        ensures
            r.codec == codec,
            r.state.vendor_id == vendor_id,
            r.state.product_id == product_id,
            r.state.device_name == device_name,
            r.state.capabilities == probe(codec),
            r.state.connected == (if connected_on_open(codec) {
                Some(true)
            } else {
                None
            }),
            values_unknown(DeviceState { connected: None, ..r.state }),
    {
        let state = DeviceState::new(vendor_id, product_id, device_name);
        let mut device = Device::new_from_state(codec, state);
        device.init_capabilities();
        device
    }

    pub fn can_set_mute(&self) -> (r: bool)
        ensures
            r == probe(self.codec).can_set_mute,
    {
        self.codec.encode_set(Setting::Mute(false)).is_some()
    }

    pub fn can_set_surround_sound(&self) -> (r: bool)
        ensures
            r == probe(self.codec).can_set_surround_sound,
    {
        self.codec.encode_set(Setting::SurroundSound(false)).is_some()
    }

    pub fn can_set_side_tone(&self) -> (r: bool)
        ensures
            r == probe(self.codec).can_set_side_tone,
    {
        self.codec.encode_set(Setting::SideTone(false)).is_some()
    }

    pub fn can_set_automatic_shutdown(&self) -> (r: bool)
        ensures
            r == probe(self.codec).can_set_automatic_shutdown,
    {
        self.codec.encode_set(Setting::AutomaticShutdown(0)).is_some()
    }

    pub fn can_set_side_tone_volume(&self) -> (r: bool)
        ensures
            r == probe(self.codec).can_set_side_tone_volume,
    {
        self.codec.encode_set(Setting::SideToneVolume(0)).is_some()
    }

    pub fn can_set_voice_prompt(&self) -> (r: bool)
        ensures
            r == probe(self.codec).can_set_voice_prompt,
    {
        self.codec.encode_set(Setting::VoicePrompt(false)).is_some()
    }

    pub fn can_set_silent_mode(&self) -> (r: bool)
        ensures
            r == probe(self.codec).can_set_silent_mode,
    {
        self.codec.encode_set(Setting::SilentMode(false)).is_some()
    }

    pub fn can_set_equalizer(&self) -> (r: bool)
        ensures
            r == probe(self.codec).can_set_equalizer,
    {
        self.codec.encode_set(Setting::EqualizerBand(0, 0)).is_some()
    }

    /// Runs the prober: records, for every setting, whether the codec can
    /// build a packet for it. Nothing is sent to the device.
    pub fn init_capabilities(&mut self)
        ensures
            final(self).codec == old(self).codec,
            final(self).state == (DeviceState {
                capabilities: probe(old(self).codec),
                ..old(self).state
            }),
    {
        let caps = Capabilities {
            can_set_mute: self.can_set_mute(),
            can_set_surround_sound: self.can_set_surround_sound(),
            can_set_side_tone: self.can_set_side_tone(),
            can_set_automatic_shutdown: self.can_set_automatic_shutdown(),
            can_set_side_tone_volume: self.can_set_side_tone_volume(),
            can_set_voice_prompt: self.can_set_voice_prompt(),
            can_set_silent_mode: self.can_set_silent_mode(),
            can_set_equalizer: self.can_set_equalizer(),
        };
        self.state.set_capabilities(caps);
    }

    pub fn get_wireless_connected_status_packet(&self) -> (r: Option<Vec<u8>>)
        ensures
            packet_view(r) == query_packet(self.codec, Query::WirelessConnected),
    {
        self.codec.encode_get(Query::WirelessConnected)
    }

    pub fn get_charging_packet(&self) -> (r: Option<Vec<u8>>)
        ensures
            packet_view(r) == query_packet(self.codec, Query::Charging),
    {
        self.codec.encode_get(Query::Charging)
    }

    pub fn get_battery_packet(&self) -> (r: Option<Vec<u8>>)
        ensures
            packet_view(r) == query_packet(self.codec, Query::Battery),
    {
        self.codec.encode_get(Query::Battery)
    }

    pub fn get_automatic_shut_down_packet(&self) -> (r: Option<Vec<u8>>)
        ensures
            packet_view(r) == query_packet(self.codec, Query::AutomaticShutdown),
    {
        self.codec.encode_get(Query::AutomaticShutdown)
    }

    pub fn get_mute_packet(&self) -> (r: Option<Vec<u8>>)
        ensures
            packet_view(r) == query_packet(self.codec, Query::Mute),
    {
        self.codec.encode_get(Query::Mute)
    }

    pub fn get_surround_sound_packet(&self) -> (r: Option<Vec<u8>>)
        ensures
            packet_view(r) == query_packet(self.codec, Query::SurroundSound),
    {
        self.codec.encode_get(Query::SurroundSound)
    }

    pub fn get_mic_connected_packet(&self) -> (r: Option<Vec<u8>>)
        ensures
            packet_view(r) == query_packet(self.codec, Query::MicConnected),
    {
        self.codec.encode_get(Query::MicConnected)
    }

    pub fn get_pairing_info_packet(&self) -> (r: Option<Vec<u8>>)
        ensures
            packet_view(r) == query_packet(self.codec, Query::PairingInfo),
    {
        self.codec.encode_get(Query::PairingInfo)
    }

    pub fn get_product_color_packet(&self) -> (r: Option<Vec<u8>>)
        ensures
            packet_view(r) == query_packet(self.codec, Query::ProductColor),
    {
        self.codec.encode_get(Query::ProductColor)
    }

    pub fn get_side_tone_packet(&self) -> (r: Option<Vec<u8>>)
        ensures
            packet_view(r) == query_packet(self.codec, Query::SideTone),
    {
        self.codec.encode_get(Query::SideTone)
    }

    pub fn get_side_tone_volume_packet(&self) -> (r: Option<Vec<u8>>)
        ensures
            packet_view(r) == query_packet(self.codec, Query::SideToneVolume),
    {
        self.codec.encode_get(Query::SideToneVolume)
    }

    pub fn get_voice_prompt_packet(&self) -> (r: Option<Vec<u8>>)
        ensures
            packet_view(r) == query_packet(self.codec, Query::VoicePrompt),
    {
        self.codec.encode_get(Query::VoicePrompt)
    }

    pub fn get_sirk_packet(&self) -> (r: Option<Vec<u8>>)
        ensures
            packet_view(r) == query_packet(self.codec, Query::Sirk),
    {
        self.codec.encode_get(Query::Sirk)
    }

    pub fn get_silent_mode_packet(&self) -> (r: Option<Vec<u8>>)
        ensures
            packet_view(r) == query_packet(self.codec, Query::SilentMode),
    {
        self.codec.encode_get(Query::SilentMode)
    }

    pub fn set_automatic_shut_down_packet(&self, shutdown_after_secs: u64) -> (r: Option<Vec<u8>>)
        ensures
            packet_view(r) == setting_packet_of(self.codec, Setting::AutomaticShutdown(shutdown_after_secs)),
    {
        self.codec.encode_set(Setting::AutomaticShutdown(shutdown_after_secs))
    }

    pub fn set_mute_packet(&self, mute: bool) -> (r: Option<Vec<u8>>)
        ensures
            packet_view(r) == setting_packet_of(self.codec, Setting::Mute(mute)),
    {
        self.codec.encode_set(Setting::Mute(mute))
    }

    pub fn set_surround_sound_packet(&self, surround_sound: bool) -> (r: Option<Vec<u8>>)
        ensures
            packet_view(r) == setting_packet_of(self.codec, Setting::SurroundSound(surround_sound)),
    {
        self.codec.encode_set(Setting::SurroundSound(surround_sound))
    }

    pub fn set_side_tone_packet(&self, side_tone_on: bool) -> (r: Option<Vec<u8>>)
        ensures
            packet_view(r) == setting_packet_of(self.codec, Setting::SideTone(side_tone_on)),
    {
        self.codec.encode_set(Setting::SideTone(side_tone_on))
    }

    pub fn set_side_tone_volume_packet(&self, volume: u8) -> (r: Option<Vec<u8>>)
        ensures
            packet_view(r) == setting_packet_of(self.codec, Setting::SideToneVolume(volume)),
    {
        self.codec.encode_set(Setting::SideToneVolume(volume))
    }

    pub fn set_voice_prompt_packet(&self, enable: bool) -> (r: Option<Vec<u8>>)
        ensures
            packet_view(r) == setting_packet_of(self.codec, Setting::VoicePrompt(enable)),
    {
        self.codec.encode_set(Setting::VoicePrompt(enable))
    }

    pub fn set_silent_mode_packet(&self, silence: bool) -> (r: Option<Vec<u8>>)
        ensures
            packet_view(r) == setting_packet_of(self.codec, Setting::SilentMode(silence)),
    {
        self.codec.encode_set(Setting::SilentMode(silence))
    }

    pub fn set_noise_gate_packet(&self, enable: bool) -> (r: Option<Vec<u8>>)
        ensures
            packet_view(r) == setting_packet_of(self.codec, Setting::NoiseGate(enable)),
    {
        self.codec.encode_set(Setting::NoiseGate(enable))
    }

    pub fn reset_sirk_packet(&self) -> (r: Option<Vec<u8>>)
        ensures
            packet_view(r) == setting_packet_of(self.codec, Setting::ResetSirk),
    {
        self.codec.encode_set(Setting::ResetSirk)
    }

    pub fn set_equalizer_band_packet(&self, band_index: u8, centi_db: i32) -> (r: Option<Vec<u8>>)
        ensures
            packet_view(r) == setting_packet_of(self.codec, Setting::EqualizerBand(band_index, centi_db)),
    {
        self.codec.encode_set(Setting::EqualizerBand(band_index, centi_db))
    }

    /// Equalizer packets for several bands, one packet per band in the order
    /// given, since the firmware reads one band per write. `None` where the
    /// model has no equalizer, the list is empty, or a band is out of range.
    pub fn set_equalizer_bands_packets(&self, bands: &Vec<(u8, i32)>) -> (r: Option<Vec<Vec<u8>>>)
        ensures
            match equalizer_packets(self.codec, bands@) {
                Some(ps) => r matches Some(v) && v@.map_values(|p: Vec<u8>| p@) == ps,
                None => r is None,
            },
    {
        if bands.len() == 0 {
            return None;
        }
        let mut out: Vec<Vec<u8>> = Vec::new();
        let mut i: usize = 0;
        while i < bands.len()
            invariant
                0 < bands@.len(),
                i <= bands@.len(),
                forall|j: int|
                    0 <= j < i ==> setting_packet_of(
                        self.codec,
                        Setting::EqualizerBand(#[trigger] bands@[j].0, bands@[j].1),
                    ) is Some,
                out@.map_values(|p: Vec<u8>| p@) == Seq::new(
                    i as nat,
                    |j: int|
                        setting_packet_of(
                            self.codec,
                            Setting::EqualizerBand(bands@[j].0, bands@[j].1),
                        )->Some_0,
                ),
            decreases bands@.len() - i,
        {
            let (band, gain) = bands[i];
            match self.codec.encode_set(Setting::EqualizerBand(band, gain)) {
                Some(p) => {
                    let ghost prev = out@;
                    out.push(p);
                    assert(out@ =~= prev.push(p));
                    assert(out@.map_values(|p: Vec<u8>| p@) =~= prev.map_values(|p: Vec<u8>| p@).push(
                        p@,
                    ));
                },
                None => {
                    return None;
                },
            }
            i = i + 1;
            assert(out@.map_values(|p: Vec<u8>| p@) =~= Seq::new(
                i as nat,
                |j: int|
                    setting_packet_of(
                        self.codec,
                        Setting::EqualizerBand(bands@[j].0, bands@[j].1),
                    )->Some_0,
            ));
        }
        Some(out)
    }

    pub fn get_device_state(&self) -> (r: &DeviceState)
        ensures
            *r == self.state,
    {
        &self.state
    }

    /// Decodes one inbound report with this device's codec.
    pub fn get_event_from_device_response(&self, response: &[u8]) -> (r: Option<Vec<DeviceEvent>>)
        ensures
            crate::devices::codec::events_view(r) == crate::devices::codec::decoded(
                self.codec,
                response@,
            ),
    {
        self.codec.decode(response)
    }

    /// Whether it is worth listening to this device between sweeps.
    pub fn allow_passive_refresh(&self) -> (r: bool)
        ensures
            r == listens_passively(self.codec),
    {
        self.codec.allow_passive_refresh()
    }
}

} // verus!
