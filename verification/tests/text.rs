use g7pro::protocol::{Buttons, Dpad, Input, Status};
use g7pro::text::{
    battery_line, decimal, device_banner, dpad_text, dump_text, input_line, pressed_text,
    rx_header,
};

#[test]
fn decimal_text() {
    assert_eq!(decimal(0), "0");
    assert_eq!(decimal(7), "7");
    assert_eq!(decimal(10), "10");
    assert_eq!(decimal(255), "255");
    assert_eq!(decimal(18446744073709551615), "18446744073709551615");
}

#[test]
fn battery_lines_single_shot() {
    let s = Status { battery: 87, charging: true, live: true };
    assert_eq!(battery_line(s, false), "87% charging");
    let s = Status { battery: 5, charging: false, live: true };
    assert_eq!(battery_line(s, false), "5%");
}

#[test]
fn battery_lines_watch() {
    let s = Status { battery: 100, charging: true, live: true };
    assert_eq!(battery_line(s, true), "Battery: 100% (charging)");
    let s = Status { battery: 42, charging: false, live: true };
    assert_eq!(battery_line(s, true), "Battery: 42%");
}

#[test]
fn rx_header_text() {
    assert_eq!(rx_header(64), "RX 64 bytes:");
    assert_eq!(rx_header(3), "RX 3 bytes:");
}

#[test]
fn dump_short() {
    assert_eq!(dump_text(&[0x0f, 0xa2, 0x00]), "0f a2 00 ");
}

#[test]
fn dump_empty_prints_one_line_break() {
    assert_eq!(dump_text(&[]), "\n");
}

#[test]
fn dump_sixteen_bytes() {
    let data: Vec<u8> = (0u8..16).collect();
    assert_eq!(
        dump_text(&data),
        "00 01 02 03 04 05 06 07 08 09 0a 0b 0c 0d 0e 0f \n\n"
    );
}

#[test]
fn dump_seventeen_bytes() {
    let data: Vec<u8> = (0xf0u8..=0xff).chain([0x12u8]).collect();
    assert_eq!(
        dump_text(&data),
        "f0 f1 f2 f3 f4 f5 f6 f7 f8 f9 fa fb fc fd fe ff \n12 "
    );
}

#[test]
fn dump_length_matches_layout() {
    for n in 0..70usize {
        let data = vec![0xabu8; n];
        let expected = 3 * n + n / 16 + if n % 16 == 0 { 1 } else { 0 };
        assert_eq!(dump_text(&data).len(), expected);
    }
}

#[test]
fn dpad_names_match_debug() {
    for d in [
        Dpad::Neutral,
        Dpad::Up,
        Dpad::UpRight,
        Dpad::Right,
        Dpad::DownRight,
        Dpad::Down,
        Dpad::DownLeft,
        Dpad::Left,
        Dpad::UpLeft,
    ] {
        assert_eq!(dpad_text(d), format!("{d:?}"));
    }
}

#[test]
fn pressed_text_dash_when_none() {
    assert_eq!(pressed_text(&Buttons::default()), "-");
    let mut b = Buttons::default();
    b.rb = true;
    assert_eq!(pressed_text(&b), "RB");
    b.home = true;
    b.x = true;
    assert_eq!(pressed_text(&b), "X RB Home");
}

#[test]
fn input_line_layout() {
    let mut buttons = Buttons::default();
    buttons.dpad = Dpad::DownLeft;
    buttons.a = true;
    buttons.share = true;
    let input = Input { lx: 128, ly: 7, rx: 64, ry: 255, lt: 0, rt: 10, buttons, live: true };
    assert_eq!(
        input_line(&input),
        "L(128,  7) R( 64,255) LT=  0 RT= 10 dpad=DownLeft | A Share"
    );
}

#[test]
fn input_line_matches_format() {
    let input = Input {
        lx: 1,
        ly: 22,
        rx: 133,
        ry: 9,
        lt: 99,
        rt: 100,
        buttons: Buttons::default(),
        live: true,
    };
    let expected = format!(
        "L({:3},{:3}) R({:3},{:3}) LT={:3} RT={:3} dpad={:?} | {}",
        input.lx, input.ly, input.rx, input.ry, input.lt, input.rt, input.buttons.dpad, "-"
    );
    assert_eq!(input_line(&input), expected);
}

#[test]
fn device_banner_text() {
    assert_eq!(
        device_banner(0x10c6, Some("GameSir G7 Pro")),
        "Found: 10c6 (GameSir G7 Pro)"
    );
    assert_eq!(device_banner(0x0575, None), "Found: 0575 (unknown)");
    assert_eq!(device_banner(0xabcd, Some("")), "Found: abcd ()");
}
