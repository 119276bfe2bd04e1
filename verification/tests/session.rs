use g7pro::protocol::{heartbeat_report, rumble_report, Input, Status, REPORT_STATUS};
use g7pro::session::{
    after_error, battery_reconnects, rumble_script, AfterError, BatteryAction, BatterySession,
    ButtonSession, Heartbeat, RumbleStep, RECONNECT_DELAY_MS,
};

fn frame(battery: u8, charging: bool, live: bool) -> Vec<u8> {
    let mut buf = vec![0u8; 64];
    buf[0] = REPORT_STATUS;
    if live {
        buf[1] = 0x80;
        buf[2] = 0x80;
        buf[3] = 0x80;
        buf[4] = 0x80;
    }
    buf[35] = if charging { 1 } else { 0 };
    buf[36] = battery;
    buf
}

#[test]
fn heartbeat_schedule() {
    const MS: u64 = 1_000_000;
    let mut hb = Heartbeat::new();
    assert!(hb.due(0));
    hb.sent(0);
    assert!(!hb.due(0));
    assert!(!hb.due(500 * MS - 1));
    assert!(hb.due(500 * MS));
    hb.sent(520 * MS + 7);
    assert!(!hb.due(1020 * MS + 6));
    assert!(hb.due(1020 * MS + 7));
    assert!(!hb.due(10));
}

#[test]
fn single_shot_finishes_at_first_live_status() {
    let mut s = BatterySession::new(false, false);
    assert_eq!(s.on_report(&[1, 2, 3]), BatteryAction::Wait);
    assert_eq!(s.on_report(&frame(0, false, false)), BatteryAction::Wait);
    assert_eq!(
        s.on_report(&frame(80, true, true)),
        BatteryAction::Finish(Status { battery: 80, charging: true, live: true })
    );
}

#[test]
fn single_shot_disconnect_is_silent() {
    let mut s = BatterySession::new(false, true);
    s.connected = true;
    assert_eq!(s.on_report(&frame(0, false, false)), BatteryAction::Wait);
    assert!(!s.connected);
}

#[test]
fn single_shot_times_out_after_5_seconds() {
    let s = BatterySession::new(false, false);
    assert!(!s.timed_out(4_999_999_999));
    assert!(s.timed_out(5_000_000_000));
    let w = BatterySession::new(true, false);
    assert!(!w.timed_out(u64::MAX));
}

#[test]
fn watch_shows_changes_once() {
    let mut s = BatterySession::new(true, false);
    let st = Status { battery: 60, charging: false, live: true };
    assert_eq!(s.on_report(&frame(60, false, true)), BatteryAction::Show(st));
    assert_eq!(s.on_report(&frame(60, false, true)), BatteryAction::Wait);
    assert_eq!(
        s.on_report(&frame(60, true, true)),
        BatteryAction::Show(Status { battery: 60, charging: true, live: true })
    );
    assert_eq!(s.on_report(&frame(60, true, true)), BatteryAction::Wait);
}

#[test]
fn watch_announces_disconnect_once_and_shows_status_again() {
    let mut s = BatterySession::new(true, false);
    let st = Status { battery: 60, charging: false, live: true };
    assert_eq!(s.on_report(&frame(60, false, true)), BatteryAction::Show(st));
    assert_eq!(s.on_report(&frame(0, false, false)), BatteryAction::ShowDisconnected);
    assert_eq!(s.on_report(&frame(0, false, false)), BatteryAction::Wait);
    assert_eq!(s.on_report(&frame(60, false, true)), BatteryAction::Show(st));
}

#[test]
fn watch_no_disconnect_before_first_connection() {
    let mut s = BatterySession::new(true, false);
    assert_eq!(s.on_report(&frame(0, false, false)), BatteryAction::Wait);
}

#[test]
fn invalid_battery_frames_are_ignored() {
    let mut s = BatterySession::new(true, false);
    assert_eq!(s.on_report(&frame(150, false, true)), BatteryAction::Wait);
    assert!(!s.connected);
}

#[test]
fn reconnect_policy() {
    assert!(battery_reconnects(true));
    assert!(!battery_reconnects(false));
    assert_eq!(after_error(true), AfterError::GiveUp);
    assert_eq!(after_error(false), AfterError::RetryAfterMs(2000));
    assert_eq!(RECONNECT_DELAY_MS, 2000);
}

#[test]
fn button_session_shows_changes_only() {
    let mut s = ButtonSession::new();
    let mut buf = frame(50, false, true);
    buf[5] = 0x08;
    let first = s.on_report(&buf);
    assert!(first.is_some());
    let first: Input = first.unwrap();
    assert_eq!(first.lx, 0x80);
    assert_eq!(s.on_report(&buf), None);
    buf[5] = 0x28; // A pressed
    let second = s.on_report(&buf).unwrap();
    assert!(second.buttons.a);
    assert_eq!(s.last_shown, Some(second));
}

#[test]
fn button_session_ignores_placeholder_and_short_frames() {
    let mut s = ButtonSession::new();
    assert_eq!(s.on_report(&frame(0, false, false)), None);
    assert_eq!(s.on_report(&frame(50, false, true)[..40]), None);
    assert_eq!(s.last_shown, None);
}

#[test]
fn rumble_script_steps() {
    let steps = rumble_script();
    assert_eq!(steps.len(), 7);
    assert!(matches!(steps[0], RumbleStep::Send(r) if r == heartbeat_report()));
    assert!(matches!(steps[1], RumbleStep::Pause(50)));
    assert!(matches!(steps[2], RumbleStep::Say("Rumble test...")));
    assert!(matches!(steps[3], RumbleStep::Send(r) if r == rumble_report(0xc0, 0xc0)));
    assert!(matches!(steps[4], RumbleStep::Pause(400)));
    assert!(matches!(steps[5], RumbleStep::Send(r) if r == rumble_report(0, 0)));
    assert!(matches!(steps[6], RumbleStep::Say("Done")));
}
