use hyper_headset::devices::codec::{Codec, Query};
use hyper_headset::devices::device::{Device, DeviceError};
use hyper_headset::devices::event::{ChargingStatus, Color};
use hyper_headset::devices::refresh::{Action, Refresh, Reply, RESPONSE_DELAY_MS, STARTUP_DELAY_MS};

/// Runs a refresh against a simulated transport; returns the packets written
/// and the result.
fn drive(
    device: &mut Device,
    mut refresh: Refresh,
    mut transport: impl FnMut(Option<&[u8]>) -> Reply,
) -> (Vec<Vec<u8>>, Result<(), DeviceError>) {
    let mut sent = Vec::new();
    loop {
        match refresh.action() {
            Action::Finished(res) => return (sent, res),
            Action::Send { packet, delay_ms } => {
                assert!(delay_ms == RESPONSE_DELAY_MS || delay_ms == STARTUP_DELAY_MS);
                let reply = transport(Some(&packet));
                sent.push(packet);
                device.on_reply(&mut refresh, reply);
            }
            Action::Listen => {
                let reply = transport(None);
                device.on_reply(&mut refresh, reply);
            }
        }
        assert!(sent.len() <= 64, "refresh did not end");
    }
}

/// A Cloud III that answers every query it is sent.
fn cloud_iii_answer(packet: &[u8]) -> Reply {
    let mut r = vec![0u8; 62];
    r[0] = 102;
    r[1] = packet[1];
    match packet[1] {
        130 => r[2] = 1,
        138 => r[2] = 1,
        137 => {
            r[2] = 1;
            r[4] = 64;
        }
        133 => r[2] = 20,
        134 => r[2] = 1,
        143 => r[2] = 2,
        132 => r[2] = 1,
        136 => r[2] = 3,
        135 => r[2] = 0,
        _ => {}
    }
    Reply::Report(r)
}

#[test]
fn silent_transport_ends_with_no_response() {
    for codec in [
        Codec::CloudIIWireless,
        Codec::CloudIIISWireless,
        Codec::CloudIIIWireless,
        Codec::CloudAlphaWireless,
        Codec::CloudIICoreWireless,
    ] {
        let mut d = Device::connect(codec, 0, 0, None);
        let plan = d.start_active_refresh();
        let planned = plan.steps.len();
        let (sent, res) = drive(&mut d, plan, |_| Reply::Silent);
        assert!(matches!(res, Err(DeviceError::NoResponse)));
        assert!(sent.len() <= planned);
    }
}

#[test]
fn answering_transport_fills_state_in_sweep_order() {
    let mut d = Device::connect(Codec::CloudIIIWireless, 0x03F0, 0x05B7, Some("Cloud III".to_string()));
    let plan = d.start_active_refresh();
    let (sent, res) = drive(&mut d, plan, |p| cloud_iii_answer(p.unwrap()));
    assert!(res.is_ok());
    let order: Vec<u8> = sent.iter().map(|p| p[1]).collect();
    assert_eq!(order, vec![130, 138, 137, 133, 134, 143, 132, 136, 131, 135]);
    let s = d.get_device_state();
    assert_eq!(s.connected, Some(true));
    assert_eq!(s.charging, Some(ChargingStatus::Charging));
    assert_eq!(s.battery_level, Some(64));
    assert_eq!(s.automatic_shutdown_after, Some(20 * 60));
    assert_eq!(s.muted, Some(true));
    assert_eq!(s.product_color, Some(Color::BlackRed));
    // this model's answers to side-tone queries have no known layout
    assert_eq!(s.side_tone_on, None);
    assert_eq!(s.side_tone_volume, None);
    assert_eq!(s.silent, Some(false));
}

#[test]
fn sweep_stops_when_headset_reports_disconnected() {
    let mut d = Device::connect(Codec::CloudIIIWireless, 0x03F0, 0x05B7, None);
    let plan = d.start_active_refresh();
    let (sent, res) = drive(&mut d, plan, |p| {
        let p = p.unwrap();
        let mut r = vec![0u8; 62];
        r[0] = 102;
        r[1] = p[1];
        Reply::Report(r)
    });
    assert!(res.is_ok());
    assert_eq!(sent.len(), 1);
    assert_eq!(d.get_device_state().connected, Some(false));
}

#[test]
fn cloud_ii_sweep_starts_with_its_startup_sequence() {
    let d = Device::connect(Codec::CloudIIWireless, 0x0951, 0x1718, None);
    assert_eq!(d.get_device_state().connected, Some(true));
    let plan = d.start_active_refresh();
    let cmds: Vec<u8> = plan.steps.iter().map(|s| s.packet[15]).collect();
    assert_eq!(cmds, vec![1, 0, 17, 29, 9, 3, 2, 26, 1, 0]);
    assert_eq!(plan.steps[5].packet[4], 0x9A);
    assert_eq!(plan.steps[1].packet[4], 255);
    match plan.action() {
        Action::Send { delay_ms, .. } => assert_eq!(delay_ms, STARTUP_DELAY_MS),
        _ => panic!("expected a write"),
    }
}

#[test]
fn passive_refresh_hears_pushed_mute() {
    let mut d = Device::connect(Codec::CloudIIISWireless, 0x03F0, 0x06BE, None);
    let mute_query = d.get_mute_packet().unwrap();
    let plan = d.start_passive_refresh();
    let (sent, res) = drive(&mut d, plan, |p| match p {
        None => {
            let mut r = vec![0u8; 64];
            r[0] = 0x0D;
            r[4] = 3;
            r[5] = 1;
            Reply::Report(r)
        }
        Some(_) => Reply::Silent,
    });
    assert!(res.is_ok());
    assert_eq!(d.get_device_state().muted, Some(true));
    assert_eq!(sent, vec![d.get_battery_packet().unwrap()]);
    assert!(sent.iter().all(|p| *p != mute_query));
}

#[test]
fn passive_refresh_of_model_that_is_not_heard_only_asks_battery() {
    let mut d = Device::connect(Codec::CloudIIWireless, 0x0951, 0x1718, None);
    let plan = d.start_passive_refresh();
    assert_eq!(plan.steps.len(), 1);
    let (sent, res) = drive(&mut d, plan, |_| Reply::Silent);
    assert!(res.is_ok());
    assert_eq!(sent, vec![d.get_battery_packet().unwrap()]);
}

#[test]
fn transport_failure_clears_values_keeps_capabilities() {
    let mut d = Device::connect(Codec::CloudIIIWireless, 0x03F0, 0x05B7, Some("x".to_string()));
    let caps = d.get_device_state().capabilities;
    let plan = d.start_active_refresh();
    let mut n = 0;
    let (_, res) = drive(&mut d, plan, |p| {
        n += 1;
        if n < 4 {
            cloud_iii_answer(p.unwrap())
        } else {
            Reply::Failed("broken pipe".to_string())
        }
    });
    match res {
        Err(DeviceError::HidError(msg)) => assert_eq!(msg, "broken pipe"),
        other => panic!("unexpected {:?}", other),
    }
    let s = d.get_device_state();
    assert_eq!(s.capabilities, caps);
    assert_eq!(s.battery_level, None);
    assert_eq!(s.connected, None);
    assert_eq!(s.charging, None);
    assert_eq!(s.device_name, Some("x".to_string()));
}

#[test]
fn probe_is_stable_and_matches_the_codec() {
    let mut d = Device::connect(Codec::CloudIIISWireless, 0x03F0, 0x06BE, None);
    let first = d.get_device_state().capabilities;
    d.init_capabilities();
    assert_eq!(d.get_device_state().capabilities, first);
    assert!(first.can_set_mute);
    assert!(first.can_set_automatic_shutdown);
    assert!(first.can_set_equalizer);
    assert!(!first.can_set_side_tone);
    assert!(!first.can_set_surround_sound);
    let core = Device::connect(Codec::CloudIICoreWireless, 0x03F0, 0x0aa0, None);
    let c = core.get_device_state().capabilities;
    assert!(c.can_set_silent_mode && c.can_set_side_tone_volume && !c.can_set_equalizer);
}

#[test]
fn unknown_reports_do_not_count_as_answers() {
    let mut d = Device::connect(Codec::CloudIIIWireless, 0x03F0, 0x05B7, None);
    let plan = d.start_active_refresh();
    let (_, res) = drive(&mut d, plan, |_| Reply::Report(vec![1, 2, 3, 4, 5]));
    assert!(matches!(res, Err(DeviceError::NoResponse)));
    assert_eq!(d.get_device_state().battery_level, None);
    assert!(d.get_battery_packet().is_some());
    assert!(Codec::CloudIIIWireless.encode_get(Query::VoicePrompt).is_none());
}
