//! Last-known values of a connected headset and its capability flags.

use vstd::prelude::*;

use crate::devices::event::{ChargingStatus, Color, DeviceEvent};

verus! {

/// Which settings a headset model accepts, found once by probing its codec.
#[derive(Debug, Clone, Copy, PartialEq, Eq, Structural)]
pub struct Capabilities {
    pub can_set_mute: bool,
    pub can_set_surround_sound: bool,
    pub can_set_side_tone: bool,
    pub can_set_automatic_shutdown: bool,
    pub can_set_side_tone_volume: bool,
    pub can_set_voice_prompt: bool,
    pub can_set_silent_mode: bool,
    pub can_set_equalizer: bool,
}

impl Capabilities {
    /// No setting is known to be supported.
    pub fn none() -> (r: Capabilities)
        ensures
            r == Capabilities::none_spec(),
    {
        Capabilities {
            can_set_mute: false,
            can_set_surround_sound: false,
            can_set_side_tone: false,
            can_set_automatic_shutdown: false,
            can_set_side_tone_volume: false,
            can_set_voice_prompt: false,
            can_set_silent_mode: false,
            can_set_equalizer: false,
        }
    }

    pub open spec fn none_spec() -> Capabilities {
        Capabilities {
            can_set_mute: false,
            can_set_surround_sound: false,
            can_set_side_tone: false,
            can_set_automatic_shutdown: false,
            can_set_side_tone_volume: false,
            can_set_voice_prompt: false,
            can_set_silent_mode: false,
            can_set_equalizer: false,
        }
    }
}

/// The record of one live connection: identity, the last value observed for
/// each feature (`None` until observed), and the capability flags.
#[derive(Debug)]
pub struct DeviceState {
    pub product_id: u16,
    pub vendor_id: u16,
    pub device_name: Option<String>,
    pub battery_level: Option<u8>,
    pub charging: Option<ChargingStatus>,
    pub muted: Option<bool>,
    pub mic_connected: Option<bool>,
    /// Delay before automatic shutdown, in seconds.
    pub automatic_shutdown_after: Option<u64>,
    pub pairing_info: Option<u8>,
    pub product_color: Option<Color>,
    pub side_tone_on: Option<bool>,
    pub side_tone_volume: Option<u8>,
    pub surround_sound: Option<bool>,
    pub voice_prompt_on: Option<bool>,
    /// `None`: never probed; `Some(false)`: the headset is away from its dongle.
    pub connected: Option<bool>,
    pub silent: Option<bool>,
    /// Set once by the prober when the connection is made.
    pub capabilities: Capabilities,
}

/// Every feature value of `s` is unknown.
pub open spec fn values_unknown(s: DeviceState) -> bool {
    &&& s.battery_level is None
    &&& s.charging is None
    &&& s.muted is None
    &&& s.mic_connected is None
    &&& s.automatic_shutdown_after is None
    &&& s.pairing_info is None
    &&& s.product_color is None
    &&& s.side_tone_on is None
    &&& s.side_tone_volume is None
    &&& s.surround_sound is None
    &&& s.voice_prompt_on is None
    &&& s.connected is None
    &&& s.silent is None
}

/// `a` and `b` describe the same connection: identity and capability flags agree.
pub open spec fn same_connection(a: DeviceState, b: DeviceState) -> bool {
    &&& a.product_id == b.product_id
    &&& a.vendor_id == b.vendor_id
    &&& a.device_name == b.device_name
    &&& a.capabilities == b.capabilities
}

/// The state after one event: the event's field is overwritten, nothing else
/// changes. Events that carry no stored feature leave the state as it was.
pub open spec fn apply_event(s: DeviceState, e: DeviceEvent) -> DeviceState {
    match e {
        DeviceEvent::BatteryLevel(v) => DeviceState { battery_level: Some(v), ..s },
        DeviceEvent::Charging(v) => DeviceState { charging: Some(v), ..s },
        DeviceEvent::Muted(v) => DeviceState { muted: Some(v), ..s },
        DeviceEvent::MicConnected(v) => DeviceState { mic_connected: Some(v), ..s },
        DeviceEvent::AutomaticShutdownAfter(v) => DeviceState {
            automatic_shutdown_after: Some(v),
            ..s
        },
        DeviceEvent::PairingInfo(v) => DeviceState { pairing_info: Some(v), ..s },
        DeviceEvent::ProductColor(v) => DeviceState { product_color: Some(v), ..s },
        DeviceEvent::SideToneOn(v) => DeviceState { side_tone_on: Some(v), ..s },
        DeviceEvent::SideToneVolume(v) => DeviceState { side_tone_volume: Some(v), ..s },
        DeviceEvent::SurroundSound(v) => DeviceState { surround_sound: Some(v), ..s },
        DeviceEvent::VoicePrompt(v) => DeviceState { voice_prompt_on: Some(v), ..s },
        DeviceEvent::WirelessConnected(v) => DeviceState { connected: Some(v), ..s },
        DeviceEvent::Silent(v) => DeviceState { silent: Some(v), ..s },
        DeviceEvent::NoiseGateActive(_) => s,
        DeviceEvent::RequireSIRKReset(_) => s,
    }
}

/// The state after a sequence of events, applied in order.
pub open spec fn apply_events(s: DeviceState, es: Seq<DeviceEvent>) -> DeviceState
    decreases es.len(),
{
    if es.len() == 0 {
        s
    } else {
        apply_event(apply_events(s, es.drop_last()), es.last())
    }
}

/// The state with every feature value cleared and nothing else changed.
pub open spec fn cleared(s: DeviceState) -> DeviceState {
    DeviceState {
        battery_level: None,
        charging: None,
        muted: None,
        mic_connected: None,
        automatic_shutdown_after: None,
        pairing_info: None,
        product_color: None,
        side_tone_on: None,
        side_tone_volume: None,
        surround_sound: None,
        voice_prompt_on: None,
        connected: None,
        silent: None,
        ..s
    }
}

impl DeviceState {
    /// A fresh record for a resolved device: nothing observed yet, no
    /// capability known until the prober runs.
    pub fn new(vendor_id: u16, product_id: u16, device_name: Option<String>) -> (r: DeviceState)
        ensures
            r.vendor_id == vendor_id,
            r.product_id == product_id,
            r.device_name == device_name,
            values_unknown(r),
            r.capabilities == Capabilities::none_spec(),
    {
        DeviceState {
            product_id,
            vendor_id,
            device_name,
            battery_level: None,
            charging: None,
            muted: None,
            mic_connected: None,
            automatic_shutdown_after: None,
            pairing_info: None,
            product_color: None,
            side_tone_on: None,
            side_tone_volume: None,
            surround_sound: None,
            voice_prompt_on: None,
            connected: None,
            silent: None,
            capabilities: Capabilities::none(),
        }
    }

    /// The capability flags found by the prober.
    pub fn capabilities(&self) -> (r: Capabilities)
        ensures
            r == self.capabilities,
    {
        self.capabilities
    }

    pub(crate) fn set_capabilities(&mut self, c: Capabilities)
        ensures
            *final(self) == (DeviceState { capabilities: c, ..*old(self) }),
    {
        self.capabilities = c;
    }

    /// Merges one decoded event: its field is fully overwritten.
    pub fn update_self_with_event(&mut self, event: &DeviceEvent)
        ensures
            *final(self) == apply_event(*old(self), *event),
    {
        match *event {
            DeviceEvent::BatteryLevel(level) => self.battery_level = Some(level),
            DeviceEvent::Charging(status) => self.charging = Some(status),
            DeviceEvent::Muted(status) => self.muted = Some(status),
            DeviceEvent::MicConnected(status) => self.mic_connected = Some(status),
            DeviceEvent::AutomaticShutdownAfter(secs) => self.automatic_shutdown_after = Some(
                secs,
            ),
            DeviceEvent::PairingInfo(info) => self.pairing_info = Some(info),
            DeviceEvent::ProductColor(color) => self.product_color = Some(color),
            DeviceEvent::SideToneOn(on) => self.side_tone_on = Some(on),
            DeviceEvent::SideToneVolume(volume) => self.side_tone_volume = Some(volume),
            DeviceEvent::SurroundSound(on) => self.surround_sound = Some(on),
            DeviceEvent::VoicePrompt(on) => self.voice_prompt_on = Some(on),
            DeviceEvent::WirelessConnected(connected) => self.connected = Some(connected),
            DeviceEvent::Silent(silent) => self.silent = Some(silent),
            DeviceEvent::NoiseGateActive(_) => {},
            DeviceEvent::RequireSIRKReset(_) => {},
        }
    }

    /// Merges a sequence of events in order.
    pub fn update_self_with_events(&mut self, events: &Vec<DeviceEvent>)
        ensures
            *final(self) == apply_events(*old(self), events@),
    {
        let mut i: usize = 0;
        while i < events.len()
            invariant
                i <= events.len(),
                *self == apply_events(*old(self), events@.subrange(0, i as int)),
            decreases events.len() - i,
        {
            self.update_self_with_event(&events[i]);
            assert(events@.subrange(0, i + 1).drop_last() =~= events@.subrange(0, i as int));
            i = i + 1;
        }
        assert(events@.subrange(0, events.len() as int) =~= events@);
    }

    /// Forgets every observed value; identity and capability flags stay.
    pub fn clear_state(&mut self)
        ensures
            *final(self) == cleared(*old(self)),
    {
        self.charging = None;
        self.battery_level = None;
        self.muted = None;
        self.surround_sound = None;
        self.mic_connected = None;
        self.automatic_shutdown_after = None;
        self.pairing_info = None;
        self.product_color = None;
        self.side_tone_on = None;
        self.side_tone_volume = None;
        self.voice_prompt_on = None;
        self.connected = None;
        self.silent = None;
    }
}

} // verus!
