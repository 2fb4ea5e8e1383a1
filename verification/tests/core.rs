use ds4cc::controller::{detect_connection, identify, ConnectionType, ControllerType};
use ds4cc::crc32::{stamp, validate, SEED_OUTPUT};
use ds4cc::config::LightbarConfig;
use ds4cc::input::{decode_hat, parse, parse_touch_points, DPad, TouchPoint};
use ds4cc::lightbar::compute_color;
use ds4cc::output::{build_report, OutputState};
use ds4cc::rumble::{idle_reminder_pattern, pattern_for_transition};
use ds4cc::state::AgentState;

#[test]
fn crc32_known_value() {
    // CRC-32 of "123456789" (no seed byte beyond the data) is 0xCBF43926.
    // calc prepends one seed byte, so feed "1" as the seed and the rest as data.
    let crc = ds4cc::crc32::calc(b'1', b"23456789");
    assert_eq!(crc, 0xCBF4_3926);
}

#[test]
fn stamp_and_validate_roundtrip() {
    let mut buf = vec![0u8; 10];
    buf[0] = 0x31;
    buf[1] = 0x02;
    buf[2] = 0xFF;
    let crc_offset = 6;
    stamp(SEED_OUTPUT, &mut buf, crc_offset);
    assert!(validate(SEED_OUTPUT, &buf[..crc_offset + 4]));
}

#[test]
fn validate_detects_corruption() {
    let mut buf = vec![0u8; 10];
    buf[0] = 0x31;
    let crc_offset = 6;
    stamp(SEED_OUTPUT, &mut buf, crc_offset);
    buf[1] = 0xFF;
    assert!(!validate(SEED_OUTPUT, &buf[..crc_offset + 4]));
}

#[test]
fn validate_detects_any_single_byte_corruption() {
    // Flipping any one byte of the stamped window — payload or CRC field —
    // must break validation.
    let mut buf = vec![0u8; 12];
    buf[0] = 0x31;
    buf[1] = 0x02;
    buf[2] = 0xAB;
    buf[3] = 0x10;
    let crc_offset = 7;
    stamp(SEED_OUTPUT, &mut buf, crc_offset);
    for i in 0..crc_offset + 4 {
        let mut corrupt = buf.clone();
        corrupt[i] ^= 0x5A;
        assert!(
            !validate(SEED_OUTPUT, &corrupt[..crc_offset + 4]),
            "corruption at byte {i} went undetected"
        );
    }
}

#[test]
fn identify_known_controllers() {
    assert_eq!(identify(0x054C, 0x0CE6), Some(ControllerType::DualSense));
    assert_eq!(identify(0x054C, 0x0DF2), Some(ControllerType::DualSenseEdge));
    assert_eq!(identify(0x054C, 0x05C4), Some(ControllerType::Ds4V1));
    assert_eq!(identify(0x054C, 0x09CC), Some(ControllerType::Ds4V2));
}

#[test]
fn identify_unknown() {
    assert_eq!(identify(0x054C, 0x0000), None);
    assert_eq!(identify(0x0001, 0x0CE6), None);
}

#[test]
fn detect_usb_path() {
    let path = r"\\?\hid#vid_054c&pid_0ce6&mi_03#8&hash&0&0000#{4d1e55b2-f16f-11cf-88cb-001111000030}";
    assert_eq!(detect_connection(path), ConnectionType::Usb);
}

#[test]
fn detect_bt_path() {
    let path = r"\\?\hid#{00001124-0000-1000-8000-00805f9b34fb}_vid&0002054c_pid&0ce6#8&hash&0&0000#{4d1e55b2-f16f-11cf-88cb-001111000030}";
    assert_eq!(detect_connection(path), ConnectionType::Bluetooth);
}

#[test]
fn hat_decode() {
    assert_eq!(decode_hat(0), DPad::Up);
    assert_eq!(decode_hat(4), DPad::Down);
    assert_eq!(decode_hat(8), DPad::Neutral);
    assert_eq!(decode_hat(0x0F), DPad::Neutral);
}

#[test]
fn parse_dualsense_usb_basic() {
    let mut data = [0u8; 64];
    data[0] = 128;
    data[1] = 128;
    data[2] = 128;
    data[3] = 128;
    data[7] = 0x28; // hat neutral (8) + cross (0x20)
    let input = parse(ControllerType::DualSense, ConnectionType::Usb, &data).unwrap();
    assert_eq!(input.left_stick, (128, 128));
    assert!(input.buttons.cross);
    assert!(!input.buttons.circle);
    assert_eq!(input.buttons.dpad, DPad::Neutral);
}

fn make_ds_usb_with_touch(contact: u8, x: u16, y: u16) -> [u8; 64] {
    let mut data = [0u8; 64];
    data[7] = 0x08;
    data[32] = contact;
    data[33] = (x & 0xFF) as u8;
    data[34] = ((x >> 8) & 0x0F) as u8 | (((y & 0x0F) as u8) << 4);
    data[35] = ((y >> 4) & 0xFF) as u8;
    data[36] = 0x80;
    data
}

#[test]
fn touch_point_active() {
    let data = make_ds_usb_with_touch(0x00, 100, 200);
    let pts = parse_touch_points(&data, 0);
    assert!(pts[0].active, "bit7=0 should be active");
    assert_eq!(pts[0].x, 100);
    assert_eq!(pts[0].y, 200);
    assert!(!pts[1].active, "second point not set");
}

#[test]
fn touch_point_inactive() {
    let data = make_ds_usb_with_touch(0x80, 500, 300);
    let pts = parse_touch_points(&data, 0);
    assert!(!pts[0].active, "bit7=1 should be inactive");
}

#[test]
fn touch_point_x_max() {
    let data = make_ds_usb_with_touch(0x00, 1919, 0);
    let pts = parse_touch_points(&data, 0);
    assert_eq!(pts[0].x, 1919);
    assert_eq!(pts[0].y, 0);
}

#[test]
fn touch_point_y_max() {
    let data = make_ds_usb_with_touch(0x00, 0, 1079);
    let pts = parse_touch_points(&data, 0);
    assert_eq!(pts[0].y, 1079);
    assert_eq!(pts[0].x, 0);
}

#[test]
fn touch_points_short_buffer_returns_default() {
    let data = [0u8; 35];
    let pts = parse_touch_points(&data, 0);
    assert!(!pts[0].active);
    assert!(!pts[1].active);
}

#[test]
fn parse_dualsense_usb_has_touch_field() {
    let mut data = [0u8; 64];
    data[7] = 0x08;
    data[32] = 0x01;
    data[33] = 50;
    data[34] = 0x03;
    data[35] = 0;
    let input = parse(ControllerType::DualSense, ConnectionType::Usb, &data).unwrap();
    assert!(input.touchpad[0].active);
    assert_eq!(input.touchpad[0].x, 50 | (3 << 8));
}

#[test]
fn parse_ds4_usb_basic() {
    let mut data = [0u8; 64];
    data[0] = 128;
    data[1] = 128;
    data[4] = 0x40; // circle bit in hat byte
    let input = parse(ControllerType::Ds4V1, ConnectionType::Usb, &data).unwrap();
    assert!(input.buttons.circle);
    assert_eq!(input.buttons.dpad, DPad::Up);
}

#[test]
fn dispatch_parity_neutral_reports() {
    // A transport-correct resting report parses to the default record for
    // every model and transport.
    for (ct, conn, len, id, off) in [
        (ControllerType::DualSense, ConnectionType::Usb, 64usize, 0x01u8, 1usize),
        (ControllerType::DualSense, ConnectionType::Bluetooth, 78, 0x31, 2),
        (ControllerType::Ds4V2, ConnectionType::Usb, 64, 0x01, 1),
        (ControllerType::Ds4V2, ConnectionType::Bluetooth, 78, 0x11, 3),
    ] {
        let mut data = vec![0u8; len];
        data[0] = id;
        for k in 0..4 {
            data[off + k] = 128;
        }
        let hat_off = if ct == ControllerType::DualSense { 7 } else { 4 };
        data[off + hat_off] = 8;
        data[off + 32] = 0x80;
        data[off + 36] = 0x80;
        let input = parse(ct, conn, &data).unwrap();
        assert_eq!(input.left_stick, (128, 128));
        assert_eq!(input.right_stick, (128, 128));
        assert_eq!(input.buttons.dpad, DPad::Neutral);
        assert!(!input.buttons.cross);
        assert!(!input.touchpad[0].active);
        assert!(!input.touchpad[1].active);
    }
}

#[test]
fn dualsense_usb_report_size() {
    let state = OutputState {
        lightbar_r: 255,
        lightbar_g: 128,
        lightbar_b: 0,
        rumble_left: 0,
        rumble_right: 0,
        player_leds: 0,
        mute_led: 0,
    };
    let mut seq = 0u8;
    let report = build_report(ControllerType::DualSense, ConnectionType::Usb, &state, &mut seq);
    assert_eq!(report.len(), 48);
    assert_eq!(report[0], 0x02);
    assert_eq!(report[45], 255);
    assert_eq!(report[46], 128);
    assert_eq!(report[47], 0);
}

#[test]
fn dualsense_player_leds_byte_position() {
    let state = OutputState { player_leds: 0x24, ..Default::default() };
    let mut seq = 0u8;
    let usb = build_report(ControllerType::DualSense, ConnectionType::Usb, &state, &mut seq);
    assert_eq!(usb[44], 0x24);
    let bt = build_report(ControllerType::DualSense, ConnectionType::Bluetooth, &state, &mut seq);
    assert_eq!(bt[45], 0x24);
}

#[test]
fn dualsense_bt_report_size_and_crc() {
    let state = OutputState::default();
    let mut seq = 0u8;
    let report = build_report(ControllerType::DualSense, ConnectionType::Bluetooth, &state, &mut seq);
    assert_eq!(report.len(), 78);
    assert_eq!(report[0], 0x31);
    assert!(validate(SEED_OUTPUT, &report));
}

#[test]
fn ds4_usb_report_size() {
    let state = OutputState {
        lightbar_r: 0,
        lightbar_g: 255,
        lightbar_b: 0,
        rumble_left: 128,
        rumble_right: 64,
        player_leds: 0,
        mute_led: 0,
    };
    let mut seq = 0u8;
    let report = build_report(ControllerType::Ds4V2, ConnectionType::Usb, &state, &mut seq);
    assert_eq!(report.len(), 32);
    assert_eq!(report[0], 0x05);
    assert_eq!(report[5], 128);
    assert_eq!(report[4], 64);
    assert_eq!(report[7], 255);
}

#[test]
fn ds4_bt_report_size_and_crc() {
    let state = OutputState::default();
    let mut seq = 0u8;
    let report = build_report(ControllerType::Ds4V2, ConnectionType::Bluetooth, &state, &mut seq);
    assert_eq!(report.len(), 79);
    assert_eq!(report[0], 0x11);
    assert!(validate(SEED_OUTPUT, &report));
}

#[test]
fn dualsense_bt_fixed_tag() {
    let state = OutputState::default();
    let mut seq = 0u8;
    let r1 = build_report(ControllerType::DualSense, ConnectionType::Bluetooth, &state, &mut seq);
    let r2 = build_report(ControllerType::DualSense, ConnectionType::Bluetooth, &state, &mut seq);
    assert_eq!(r1[1], 0x02);
    assert_eq!(r2[1], 0x02);
}

#[test]
fn idle_is_solid_orange() {
    let cfg = LightbarConfig::default();
    let (r, g, b) = compute_color(&cfg, AgentState::Idle, 0);
    assert_eq!((r, g, b), (255, 140, 0));
    let (r2, g2, b2) = compute_color(&cfg, AgentState::Idle, 5000);
    assert_eq!((r, g, b), (r2, g2, b2));
}

#[test]
fn working_pulses() {
    let cfg = LightbarConfig::default();
    let (_, _, b0) = compute_color(&cfg, AgentState::Working, 0);
    let quarter = cfg.pulse_period_ms / 4;
    let (_, _, b_max) = compute_color(&cfg, AgentState::Working, quarter);
    let three_quarter = (cfg.pulse_period_ms * 3) / 4;
    let (_, _, b_min) = compute_color(&cfg, AgentState::Working, three_quarter);
    assert!(b_max > b_min);
    assert!(b0 > b_min);
    assert!(b0 < b_max);
}

#[test]
fn done_is_solid_green() {
    let cfg = LightbarConfig::default();
    let (r, g, b) = compute_color(&cfg, AgentState::Done, 0);
    assert_eq!((r, g, b), (0, 255, 0));
}

#[test]
fn error_is_solid_red() {
    // The error color is whatever the config triple says; the stock
    // default ships (0, 0, 0), so that is what the error state shows.
    let cfg = LightbarConfig::default();
    let (r, g, b) = compute_color(&cfg, AgentState::Error, 0);
    assert_eq!((r, g, b), (0, 0, 0));
}

#[test]
fn done_transition_has_pattern() {
    let pattern = pattern_for_transition(AgentState::Working, AgentState::Done);
    assert!(pattern.is_some());
    let steps = pattern.unwrap();
    assert_eq!(steps.len(), 3);
    assert_eq!((steps[0].left, steps[0].right, steps[0].duration_ms), (180, 180, 120));
    assert_eq!((steps[1].left, steps[1].right, steps[1].duration_ms), (0, 0, 100));
    assert_eq!((steps[2].left, steps[2].right, steps[2].duration_ms), (180, 180, 120));
}

#[test]
fn error_transition_no_rumble() {
    assert!(pattern_for_transition(AgentState::Idle, AgentState::Error).is_none());
    assert!(pattern_for_transition(AgentState::Working, AgentState::Error).is_none());
}

#[test]
fn idle_to_working_no_rumble() {
    assert!(pattern_for_transition(AgentState::Idle, AgentState::Working).is_none());
}

#[test]
fn idle_pattern_single_pulse() {
    let p = idle_reminder_pattern();
    assert_eq!(p.len(), 1);
    assert_eq!((p[0].left, p[0].right, p[0].duration_ms), (255, 255, 300));
}

#[test]
fn version_newer() {
    assert!(ds4cc::update::is_newer("2.7.0", "2.6.0"));
    assert!(ds4cc::update::is_newer("3.0.0", "2.6.0"));
    assert!(ds4cc::update::is_newer("2.6.1", "2.6.0"));
}

#[test]
fn version_same_or_older() {
    assert!(!ds4cc::update::is_newer("2.6.0", "2.6.0"));
    assert!(!ds4cc::update::is_newer("2.5.0", "2.6.0"));
    assert!(!ds4cc::update::is_newer("1.0.0", "2.6.0"));
}

#[test]
fn test_has_nonzero_exit() {
    assert!(ds4cc::codex::has_nonzero_exit("Process exited with code 1"));
    assert!(ds4cc::codex::has_nonzero_exit("some output\nProcess exited with code 127\n"));
    assert!(!ds4cc::codex::has_nonzero_exit("Process exited with code 0"));
    assert!(!ds4cc::codex::has_nonzero_exit("no exit code here"));
}

#[test]
fn usb_sorts_before_bt() {
    let bt = ds4cc::hid::ControllerInfo {
        controller_type: ControllerType::DualSense,
        connection_type: ConnectionType::Bluetooth,
        path: "bt_path".into(),
    };
    let usb = ds4cc::hid::ControllerInfo {
        controller_type: ControllerType::DualSense,
        connection_type: ConnectionType::Usb,
        path: "usb_path".into(),
    };
    let mut usb_vec = vec![usb];
    let bt_vec = vec![bt];
    usb_vec.extend(bt_vec);
    assert_eq!(usb_vec[0].connection_type, ConnectionType::Usb);
    assert_eq!(usb_vec[1].connection_type, ConnectionType::Bluetooth);
}

#[test]
fn single_bt_when_no_usb() {
    let bt = ds4cc::hid::ControllerInfo {
        controller_type: ControllerType::DualSense,
        connection_type: ConnectionType::Bluetooth,
        path: "bt_path".into(),
    };
    let mut usb_vec: Vec<ds4cc::hid::ControllerInfo> = Vec::new();
    let bt_vec = vec![bt];
    usb_vec.extend(bt_vec);
    assert_eq!(usb_vec.len(), 1);
    assert_eq!(usb_vec[0].connection_type, ConnectionType::Bluetooth);
}

#[test]
fn classify_keeps_supported_devices_usb_first() {
    let devices = vec![
        ds4cc::hid::DeviceDesc {
            usage_page: 0x01,
            usage: 0x05,
            vendor_id: 0x054C,
            product_id: 0x0CE6,
            path: "hid#{00001124-0000-1000-8000-00805f9b34fb}&0005".into(),
        },
        ds4cc::hid::DeviceDesc {
            usage_page: 0x01,
            usage: 0x02, // a mouse collection, not a gamepad
            vendor_id: 0x054C,
            product_id: 0x0CE6,
            path: "hid#vid_054c&pid_0ce6&mouse".into(),
        },
        ds4cc::hid::DeviceDesc {
            usage_page: 0x01,
            usage: 0x05,
            vendor_id: 0x1234, // unsupported vendor
            product_id: 0x0CE6,
            path: "hid#vid_1234".into(),
        },
        ds4cc::hid::DeviceDesc {
            usage_page: 0x01,
            usage: 0x05,
            vendor_id: 0x054C,
            product_id: 0x09CC,
            path: "hid#vid_054c&pid_09cc&usb".into(),
        },
    ];
    let r = ds4cc::hid::classify_controllers(devices);
    assert_eq!(r.len(), 2);
    assert_eq!(r[0].controller_type, ControllerType::Ds4V2);
    assert_eq!(r[0].connection_type, ConnectionType::Usb);
    assert_eq!(r[0].path, "hid#vid_054c&pid_09cc&usb");
    assert_eq!(r[1].controller_type, ControllerType::DualSense);
    assert_eq!(r[1].connection_type, ConnectionType::Bluetooth);
    assert_eq!(r[1].path, "hid#{00001124-0000-1000-8000-00805f9b34fb}&0005");
}

#[test]
fn classify_empty_without_supported_device() {
    let devices = vec![ds4cc::hid::DeviceDesc {
        usage_page: 0x01,
        usage: 0x05,
        vendor_id: 0x054C,
        product_id: 0x0BA0, // a Sony dongle, not a supported pad
        path: "hid#vid_054c&pid_0ba0".into(),
    }];
    assert!(ds4cc::hid::classify_controllers(devices).is_empty());
}
