use hyper_headset::devices::codec::Codec;
use hyper_headset::devices::device::Device;
use hyper_headset::devices::display::decimal_string;
use hyper_headset::devices::event::{ChargingStatus, Color, DeviceEvent};
use hyper_headset::devices::state::DeviceState;

#[test]
fn decimal_numbers() {
    assert_eq!(decimal_string(0), "0");
    assert_eq!(decimal_string(7), "7");
    assert_eq!(decimal_string(57), "57");
    assert_eq!(decimal_string(1800), "1800");
    assert_eq!(decimal_string(u64::MAX), u64::MAX.to_string());
}

#[test]
fn unknown_state_has_no_lines() {
    let s = DeviceState::new(1, 2, None);
    assert_eq!(s.to_string_with_padding(25), "");
}

#[test]
fn known_values_one_line_each() {
    let mut d = Device::connect(Codec::CloudIIISWireless, 0x03F0, 0x06BE, None);
    d.state.update_self_with_event(&DeviceEvent::BatteryLevel(57));
    d.state.update_self_with_event(&DeviceEvent::Charging(ChargingStatus::FullyCharged));
    d.state.update_self_with_event(&DeviceEvent::Muted(false));
    d.state.update_self_with_event(&DeviceEvent::AutomaticShutdownAfter(1200));
    d.state.update_self_with_event(&DeviceEvent::ProductColor(Color::UnknownColor(9)));
    d.state.update_self_with_event(&DeviceEvent::SideToneOn(true));
    let s = d.get_device_state();
    assert_eq!(
        s.to_string_with_padding(10),
        "Battery level: 57%\n\
         Charging status: Fully charged\n\
         Muted:     false\n\
         Automatic shutdown after: 20min\n\
         Product color: Unknown color 9\n\
         Side tone: true"
    );
    assert_eq!(
        s.to_string_with_readonly_info(0),
        "Battery level: 57%\n\
         Charging status: Fully charged\n\
         Muted: false\n\
         Automatic shutdown after: 20min\n\
         Product color: Unknown color 9\n\
         Side tone: true (read-only)"
    );
    assert_eq!(
        s.to_string_with_padding(25).lines().next(),
        Some(format!("{:<25} {}{}", "Battery level:", 57, "%").as_str())
    );
}
