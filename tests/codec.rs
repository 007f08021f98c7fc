use hyper_headset::devices::codec::{Codec, Query, Setting};
use hyper_headset::devices::device::{select_compatible_device, Device, DeviceError};
use hyper_headset::devices::event::{ChargingStatus, Color, DeviceEvent};

fn report(len: usize, bytes: &[(usize, u8)]) -> Vec<u8> {
    let mut r = vec![0u8; len];
    for &(i, b) in bytes {
        r[i] = b;
    }
    r
}

#[test]
fn encoding_is_byte_identical_on_repeat() {
    let codecs = [
        Codec::CloudIIWireless,
        Codec::CloudIIWirelessDTS { hp_frame: true },
        Codec::CloudIIWirelessDTS { hp_frame: false },
        Codec::CloudIIISWireless,
        Codec::CloudIIIWireless,
        Codec::CloudAlphaWireless,
        Codec::CloudIICoreWireless,
    ];
    for c in codecs {
        for q in [Query::Battery, Query::Mute, Query::Charging, Query::SurroundSound] {
            assert_eq!(c.encode_get(q), c.encode_get(q));
        }
        for s in [Setting::Mute(true), Setting::AutomaticShutdown(600), Setting::EqualizerBand(5, -600)] {
            assert_eq!(c.encode_set(s), c.encode_set(s));
        }
    }
}

#[test]
fn cloud_iii_battery_query_bytes() {
    let p = Codec::CloudIIIWireless.encode_get(Query::Battery).unwrap();
    assert_eq!(p.len(), 62);
    assert_eq!(p[0], 102);
    assert_eq!(p[1], 137);
    assert!(p[2..].iter().all(|b| *b == 0));
}

#[test]
fn cloud_iii_set_side_tone_volume_bytes() {
    let p = Codec::CloudIIIWireless.encode_set(Setting::SideToneVolume(7)).unwrap();
    assert_eq!(&p[..3], &[102, 5, 7]);
    assert_eq!(p.len(), 62);
}

#[test]
fn cloud_iii_s_battery_report_decodes_to_one_event() {
    let r = report(64, &[(0, 0x0C), (1, 0x02), (2, 0x03), (3, 0x01), (5, 0x06), (6, 57)]);
    let events = Codec::CloudIIISWireless.decode(&r);
    assert_eq!(events, Some(vec![DeviceEvent::BatteryLevel(57)]));
}

#[test]
fn cloud_iii_s_no_value_marker_is_ignored() {
    let r = report(64, &[(0, 0x0C), (5, 0x06), (6, 0xFF)]);
    assert_eq!(Codec::CloudIIISWireless.decode(&r), None);
}

#[test]
fn cloud_iii_s_auto_shutdown_answer_is_big_endian_seconds() {
    let r = report(64, &[(0, 0x0C), (5, 0x4B), (6, 0x07), (7, 0x08)]);
    assert_eq!(
        Codec::CloudIIISWireless.decode(&r),
        Some(vec![DeviceEvent::AutomaticShutdownAfter(1800)])
    );
}

#[test]
fn cloud_iii_s_mic_report_and_notifications() {
    assert_eq!(
        Codec::CloudIIISWireless.decode(&[0x05, 0x02]),
        Some(vec![DeviceEvent::Muted(true)])
    );
    assert_eq!(
        Codec::CloudIIISWireless.decode(&[0x05, 0x00]),
        Some(vec![DeviceEvent::Muted(false)])
    );
    let n = report(64, &[(0, 0x0D), (4, 10), (5, 2)]);
    assert_eq!(
        Codec::CloudIIISWireless.decode(&n),
        Some(vec![DeviceEvent::Charging(ChargingStatus::FullyCharged)])
    );
    let button = report(64, &[(0, 0x0f), (1, 0x01)]);
    assert_eq!(Codec::CloudIIISWireless.decode(&button), None);
}

#[test]
fn cloud_iii_s_equalizer_band_five_minus_six_db() {
    let p = Codec::CloudIIISWireless.encode_set(Setting::EqualizerBand(5, -600)).unwrap();
    assert_eq!(p.len(), 64);
    assert_eq!(&p[..9], &[0x0c, 0x02, 0x03, 0x00, 0x00, 0x5f, 5, 0xFD, 0xA8]);
    let value = i16::from_be_bytes([p[7], p[8]]);
    assert_eq!(p[6], 5);
    assert_eq!(value, -600);
}

#[test]
fn cloud_iii_s_equalizer_gain_is_clamped_and_band_checked() {
    let p = Codec::CloudIIISWireless.encode_set(Setting::EqualizerBand(0, 5000)).unwrap();
    assert_eq!(i16::from_be_bytes([p[7], p[8]]), 1200);
    let p = Codec::CloudIIISWireless.encode_set(Setting::EqualizerBand(9, -5000)).unwrap();
    assert_eq!(i16::from_be_bytes([p[7], p[8]]), -1200);
    assert_eq!(Codec::CloudIIISWireless.encode_set(Setting::EqualizerBand(10, 0)), None);
}

#[test]
fn cloud_iii_s_auto_shutdown_and_mic_packets() {
    let p = Codec::CloudIIISWireless.encode_set(Setting::AutomaticShutdown(30 * 60)).unwrap();
    assert_eq!(&p[..8], &[0x0c, 0x02, 0x03, 0x00, 0x00, 0x4a, 0x07, 0x08]);
    assert_eq!(p.len(), 64);
    let m = Codec::CloudIIISWireless.encode_set(Setting::Mute(true)).unwrap();
    assert_eq!(m.len(), 20);
    assert_eq!(&m[..2], &[0x05, 0x02]);
    let m = Codec::CloudIIISWireless.encode_set(Setting::Mute(false)).unwrap();
    assert_eq!(&m[..2], &[0x05, 0x00]);
}

#[test]
fn cloud_ii_status_report_packs_three_values() {
    let r = report(62, &[(3, 1), (4, 4), (12, 2), (14, 16)]);
    assert_eq!(
        Codec::CloudIIWireless.decode(&r),
        Some(vec![
            DeviceEvent::SideToneOn(true),
            DeviceEvent::Muted(true),
            DeviceEvent::SurroundSound(true),
        ])
    );
    let r = report(62, &[(3, 1), (4, 0), (12, 0), (14, 0)]);
    assert_eq!(
        Codec::CloudIIWireless.decode(&r),
        Some(vec![
            DeviceEvent::SideToneOn(false),
            DeviceEvent::Muted(false),
            DeviceEvent::SurroundSound(false),
        ])
    );
}

#[test]
fn cloud_ii_battery_and_surround_packets() {
    let r = report(62, &[(3, 2), (7, 80)]);
    assert_eq!(Codec::CloudIIWireless.decode(&r), Some(vec![DeviceEvent::BatteryLevel(80)]));
    let s = Codec::CloudIIWireless.encode_get(Query::SurroundSound).unwrap();
    assert_eq!(&s[..10], &[6, 0, 0, 0, 255, 0, 0, 104, 74, 142]);
    assert_eq!(Codec::CloudIIWireless.encode_set(Setting::Mute(true)), None);
    let b = Codec::CloudIIWireless.encode_get(Query::Battery).unwrap();
    assert_eq!(&b[..16], &[6, 0, 2, 0, 0x9A, 0, 0, 0x68, 0x4A, 0x8E, 0x0A, 0, 0, 0, 0xBB, 2]);
    assert_eq!(Codec::CloudIIWireless.decode(&[1, 2, 3]), None);
}

#[test]
fn cloud_ii_dts_frames_follow_vendor() {
    let hp = Codec::CloudIIWirelessDTS { hp_frame: true }.encode_get(Query::Mute).unwrap();
    assert_eq!(hp.len(), 20);
    assert_eq!(&hp[..4], &[0x06, 0xff, 0xbb, 5]);
    let hx = Codec::CloudIIWirelessDTS { hp_frame: false }.encode_set(Setting::Mute(true)).unwrap();
    assert_eq!(hx.len(), 62);
    assert_eq!(&hx[3..5], &[32, 1]);
    let r = report(20, &[(3, 1), (4, 4)]);
    assert_eq!(
        Codec::CloudIIWirelessDTS { hp_frame: true }.decode(&r),
        Some(vec![DeviceEvent::WirelessConnected(true)])
    );
    let r = report(20, &[(2, 14), (3, 0)]);
    assert_eq!(
        Codec::CloudIIWirelessDTS { hp_frame: true }.decode(&r),
        Some(vec![DeviceEvent::ProductColor(Color::BlackBlack)])
    );
    let r = report(20, &[(2, 14), (3, 2), (7, 40)]);
    assert_eq!(
        Codec::CloudIIWirelessDTS { hp_frame: true }.decode(&r),
        Some(vec![DeviceEvent::BatteryLevel(40)])
    );
}

#[test]
fn cloud_alpha_decodes_echoed_settings() {
    let r = report(64, &[(0, 33), (1, 187), (2, 21), (3, 1)]);
    assert_eq!(Codec::CloudAlphaWireless.decode(&r), Some(vec![DeviceEvent::Muted(true)]));
    let r = report(64, &[(0, 33), (1, 187), (2, 36), (3, 2)]);
    assert_eq!(
        Codec::CloudAlphaWireless.decode(&r),
        Some(vec![DeviceEvent::WirelessConnected(true)])
    );
    let r = report(64, &[(0, 33), (1, 188), (2, 21), (3, 1)]);
    assert_eq!(Codec::CloudAlphaWireless.decode(&r), None);
    let p = Codec::CloudAlphaWireless.encode_set(Setting::AutomaticShutdown(20 * 60)).unwrap();
    assert_eq!(&p[..4], &[33, 187, 18, 20]);
}

#[test]
fn cloud_ii_core_side_tone_volume_sentinels() {
    let dec = |v: u8| Codec::CloudIICoreWireless.decode(&report(64, &[(0, 102), (1, 136), (2, v)]));
    assert_eq!(dec(3), Some(vec![DeviceEvent::SideToneVolume(3)]));
    assert_eq!(dec(252), Some(vec![DeviceEvent::SideToneVolume(252)]));
    assert_eq!(dec(7), Some(vec![DeviceEvent::SideToneVolume(0)]));
    let set = |v: u8| Codec::CloudIICoreWireless.encode_set(Setting::SideToneVolume(v)).unwrap()[2];
    assert_eq!(set(3), 3);
    assert_eq!(set(10), 5);
    assert_eq!(set(200), 251);
    assert_eq!(set(254), 254);
}

#[test]
fn cloud_ii_core_battery_needs_status_bytes() {
    let r = report(64, &[(0, 102), (1, 13), (2, 1), (4, 90)]);
    assert_eq!(Codec::CloudIICoreWireless.decode(&r), Some(vec![DeviceEvent::BatteryLevel(90)]));
    let r = report(64, &[(0, 102), (1, 13), (4, 90)]);
    assert_eq!(Codec::CloudIICoreWireless.decode(&r), None);
    let r = report(64, &[(0, 102), (1, 141), (2, 1)]);
    assert_eq!(Codec::CloudIICoreWireless.decode(&r), Some(vec![DeviceEvent::NoiseGateActive(true)]));
}

#[test]
fn cloud_iii_sirk_report() {
    let r = report(62, &[(0, 102), (1, 131), (9, 4)]);
    assert_eq!(Codec::CloudIIIWireless.decode(&r), Some(vec![DeviceEvent::RequireSIRKReset(true)]));
    let r = report(62, &[(0, 102), (1, 131), (20, 4)]);
    assert_eq!(Codec::CloudIIIWireless.decode(&r), Some(vec![DeviceEvent::RequireSIRKReset(false)]));
}

#[test]
fn color_and_charging_from_bytes() {
    assert_eq!(Color::from(0), Color::BlackBlack);
    assert_eq!(Color::from(2), Color::BlackRed);
    assert_eq!(Color::from(7), Color::UnknownColor(7));
    assert_eq!(ChargingStatus::from(0), ChargingStatus::NotCharging);
    assert_eq!(ChargingStatus::from(1), ChargingStatus::Charging);
    assert_eq!(ChargingStatus::from(2), ChargingStatus::FullyCharged);
    assert_eq!(ChargingStatus::from(9), ChargingStatus::ChargeError);
}

#[test]
fn resolver_picks_first_claimed_device() {
    let ids = vec![(0x1234, 0x0001), (0x03F0, 0x05B7), (0x0951, 0x1718)];
    match select_compatible_device(&ids) {
        Ok((i, c)) => {
            assert_eq!(i, 1);
            assert_eq!(c, Codec::CloudIIIWireless);
        }
        Err(e) => panic!("unexpected {:?}", e),
    }
    assert_eq!(Codec::for_ids(0x0951, 0x1718), Some(Codec::CloudIIWireless));
    assert_eq!(Codec::for_ids(0x03F0, 0x1718), Some(Codec::CloudIIWirelessDTS { hp_frame: true }));
    assert_eq!(Codec::for_ids(0x0951, 0x0D93), Some(Codec::CloudIIWirelessDTS { hp_frame: false }));
    assert_eq!(Codec::for_ids(0x03F0, 0x06BE), Some(Codec::CloudIIISWireless));
    assert_eq!(Codec::for_ids(0x03F0, 0x098D), Some(Codec::CloudAlphaWireless));
    assert_eq!(Codec::for_ids(0x03F0, 0x0aa0), Some(Codec::CloudIICoreWireless));
    assert_eq!(Codec::for_ids(0x0951, 0x05B7), None);
}

#[test]
fn resolver_reports_no_device() {
    let ids = vec![(0x1234, 0x0001)];
    assert!(matches!(select_compatible_device(&ids), Err(DeviceError::NoDeviceFound)));
    assert!(matches!(select_compatible_device(&Vec::new()), Err(DeviceError::NoDeviceFound)));
}

#[test]
fn equalizer_bands_one_packet_each() {
    let d = Device::connect(Codec::CloudIIISWireless, 0x03F0, 0x06BE, None);
    let ps = d.set_equalizer_bands_packets(&vec![(5, -600), (0, 300)]).unwrap();
    assert_eq!(ps.len(), 2);
    assert_eq!(&ps[0][6..9], &[5, 0xFD, 0xA8]);
    assert_eq!(&ps[1][6..9], &[0, 0x01, 0x2C]);
    assert!(d.set_equalizer_bands_packets(&Vec::new()).is_none());
    assert!(d.set_equalizer_bands_packets(&vec![(1, 0), (12, 0)]).is_none());
    let other = Device::connect(Codec::CloudIIIWireless, 0x03F0, 0x05B7, None);
    assert!(other.set_equalizer_bands_packets(&vec![(1, 0)]).is_none());
}
