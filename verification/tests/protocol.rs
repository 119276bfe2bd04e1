use g7pro::protocol::{
    decode_buttons, heartbeat_report, parse_dpad, parse_input, parse_status, rumble_report, Buttons,
    Dpad, Input, Status, REPORT_HEARTBEAT, REPORT_STATUS,
};

fn status_frame() -> Vec<u8> {
    let mut buf = vec![0u8; 64];
    buf[0] = REPORT_STATUS;
    buf[1] = 0x80;
    buf[2] = 0x7f;
    buf[3] = 0x81;
    buf[4] = 0x7e;
    buf[35] = 0x01;
    buf[36] = 87;
    buf
}

#[test]
fn heartbeat_report_is_0f_f2_then_zeros() {
    let report = heartbeat_report();
    assert_eq!(report.len(), 64);
    assert_eq!(report[0], 0x0f);
    assert_eq!(report[1], 0xf2);
    assert!(report[2..].iter().all(|b| *b == 0));
}

#[test]
fn rumble_report_layout() {
    let report = rumble_report(0xc0, 0x12);
    assert_eq!(&report[..6], &[0x0f, 0x20, 0x66, 0x55, 0xc0, 0x12]);
    assert!(report[6..].iter().all(|b| *b == 0));
    assert_eq!(report.len(), 64);
}

#[test]
fn commands_share_report_id_but_not_subcommand() {
    let heartbeat = heartbeat_report();
    let rumble = rumble_report(1, 2);
    assert_eq!(heartbeat[0], REPORT_HEARTBEAT);
    assert_eq!(rumble[0], REPORT_HEARTBEAT);
    assert_ne!(heartbeat[1], rumble[1]);
}

#[test]
fn own_reports_are_not_status() {
    assert_eq!(parse_status(&heartbeat_report()), None);
    assert_eq!(parse_status(&rumble_report(0xc0, 0xc0)), None);
    assert_eq!(parse_input(&heartbeat_report()), None);
}

#[test]
fn parse_status_valid_frame() {
    let buf = status_frame();
    assert_eq!(
        parse_status(&buf),
        Some(Status { battery: 87, charging: true, live: true })
    );
}

#[test]
fn parse_status_charging_is_lowest_bit() {
    let mut buf = status_frame();
    buf[35] = 0xfe;
    assert_eq!(parse_status(&buf).unwrap().charging, false);
    buf[35] = 0x03;
    assert_eq!(parse_status(&buf).unwrap().charging, true);
}

#[test]
fn parse_status_too_short() {
    let buf = status_frame();
    assert_eq!(parse_status(&buf[..36]), None);
    assert!(parse_status(&buf[..37]).is_some());
    assert_eq!(parse_status(&[]), None);
}

#[test]
fn parse_status_wrong_report_id() {
    let mut buf = status_frame();
    buf[0] = 0x10;
    assert_eq!(parse_status(&buf), None);
}

#[test]
fn parse_status_rejects_battery_over_100() {
    let mut buf = status_frame();
    buf[36] = 101;
    assert_eq!(parse_status(&buf), None);
    buf[36] = 100;
    assert_eq!(parse_status(&buf).unwrap().battery, 100);
}

#[test]
fn placeholder_frame_is_not_live() {
    let mut buf = vec![0u8; 64];
    buf[0] = REPORT_STATUS;
    assert_eq!(
        parse_status(&buf),
        Some(Status { battery: 0, charging: false, live: false })
    );
    let input = parse_input(&buf).unwrap();
    assert!(!input.live);
    // All-zero sticks collide with the d-pad's Up encoding.
    assert_eq!(input.buttons.dpad, Dpad::Up);
}

#[test]
fn any_nonzero_stick_or_battery_is_live() {
    for offset in [1usize, 2, 3, 4, 36] {
        let mut buf = vec![0u8; 64];
        buf[0] = REPORT_STATUS;
        buf[offset] = 1;
        assert!(parse_status(&buf).unwrap().live, "offset {offset}");
        assert!(parse_input(&buf).unwrap().live, "offset {offset}");
    }
}

#[test]
fn parse_dpad_directions() {
    let expected = [
        Dpad::Up,
        Dpad::UpRight,
        Dpad::Right,
        Dpad::DownRight,
        Dpad::Down,
        Dpad::DownLeft,
        Dpad::Left,
        Dpad::UpLeft,
    ];
    for (nibble, dpad) in expected.iter().enumerate() {
        assert_eq!(parse_dpad(nibble as u8), *dpad);
    }
    assert_eq!(parse_dpad(8), Dpad::Neutral);
    assert_eq!(parse_dpad(15), Dpad::Neutral);
    assert_eq!(parse_dpad(0xff), Dpad::Neutral);
}

#[test]
fn defaults_are_neutral_and_unpressed() {
    assert_eq!(Dpad::default(), Dpad::Neutral);
    let buttons = Buttons::default();
    assert_eq!(buttons.dpad, Dpad::Neutral);
    assert!(buttons.pressed().is_empty());
}

#[test]
fn decode_buttons_bits() {
    let b = decode_buttons(0x18, 0x00, 0x00);
    assert_eq!(b.dpad, Dpad::Neutral);
    assert!(b.x && !b.a && !b.b && !b.y);
    let b = decode_buttons(0xe2, 0xff, 0x3b);
    assert_eq!(b.dpad, Dpad::Right);
    assert!(!b.x && b.a && b.b && b.y);
    assert!(b.lb && b.rb && b.lt_digital && b.rt_digital && b.view && b.menu && b.ls && b.rs);
    assert!(b.home && b.share && b.l4 && b.r4 && b.m);
    // bit 0x04 of the third button byte is no button
    let b = decode_buttons(0x08, 0x00, 0x04);
    assert_eq!(b, Buttons::default());
}

#[test]
fn parse_input_valid_frame() {
    let mut buf = status_frame();
    buf[5] = 0x24; // Down + A
    buf[6] = 0x81; // LB + RS
    buf[8] = 200;
    buf[9] = 3;
    buf[60] = 0x20; // M
    let input = parse_input(&buf).unwrap();
    let mut buttons = Buttons::default();
    buttons.dpad = Dpad::Down;
    buttons.a = true;
    buttons.lb = true;
    buttons.rs = true;
    buttons.m = true;
    assert_eq!(
        input,
        Input { lx: 0x80, ly: 0x7f, rx: 0x81, ry: 0x7e, lt: 200, rt: 3, buttons, live: true }
    );
}

#[test]
fn parse_input_needs_61_bytes_and_status_id() {
    let buf = status_frame();
    assert_eq!(parse_input(&buf[..60]), None);
    assert!(parse_input(&buf[..61]).is_some());
    let mut other = buf.clone();
    other[0] = 0x0f;
    assert_eq!(parse_input(&other), None);
}

#[test]
fn parse_input_ignores_battery_range() {
    let mut buf = status_frame();
    buf[36] = 200;
    assert_eq!(parse_status(&buf), None);
    assert!(parse_input(&buf).is_some());
}

#[test]
fn pressed_in_fixed_order() {
    let mut b = Buttons::default();
    b.m = true;
    b.a = true;
    b.view = true;
    b.y = true;
    assert_eq!(b.pressed(), vec!["A", "Y", "View", "M"]);
}

#[test]
fn pressed_all_buttons() {
    let b = decode_buttons(0xf0, 0xff, 0x3b);
    assert_eq!(
        b.pressed(),
        vec![
            "A", "B", "X", "Y", "LB", "RB", "LT", "RT", "View", "Menu", "LS", "RS", "Home",
            "Share", "L4", "R4", "M"
        ]
    );
}

#[test]
fn pressed_ignores_dpad() {
    let mut b1 = decode_buttons(0x30, 0x42, 0x01);
    let mut b2 = b1;
    b1.dpad = Dpad::Up;
    b2.dpad = Dpad::Neutral;
    assert_eq!(b1.pressed(), b2.pressed());
    assert_eq!(b1.pressed(), vec!["A", "X", "RB", "LS", "Home"]);
}

#[test]
fn pressing_more_buttons_only_adds_names() {
    let fewer = decode_buttons(0x20, 0x10, 0x00);
    let more = decode_buttons(0xa0, 0x11, 0x20);
    let small = fewer.pressed();
    let big = more.pressed();
    assert_eq!(small, vec!["A", "View"]);
    assert_eq!(big, vec!["A", "Y", "LB", "View", "M"]);
    let mut rest = big.iter();
    assert!(small.iter().all(|name| rest.any(|other| other == name)));
}
