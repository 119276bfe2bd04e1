//! The decisions of the long-running command-line sessions: when to send a
//! heartbeat, what to show for each report read, when to give up, and whether to
//! rediscover the device after an error. The caller performs the reads, writes,
//! sleeps and prints that these decisions ask for.

use vstd::prelude::*;

use crate::protocol::{heartbeat_bytes, rumble_bytes, heartbeat_report, rumble_report, input_of, parse_input, parse_status, status_of, Input, Status};

verus! {

/// Interval between two heartbeats (500 ms), in nanoseconds.
pub const HEARTBEAT_INTERVAL_NS: u64 = 500_000_000;

/// How long one read waits for a report, in milliseconds.
pub const READ_TIMEOUT_MS: i32 = 100;

/// How long a single-shot battery reading waits for a valid status (5 s), in
/// nanoseconds.
pub const STATUS_TIMEOUT_NS: u64 = 5_000_000_000;

/// Pause before rediscovering the device after an error, in milliseconds.
pub const RECONNECT_DELAY_MS: u64 = 2000;

/// When the heartbeat that keeps the command channel alive is due.
#[derive(Debug, Clone, Copy, PartialEq, Eq, Structural)]
pub struct Heartbeat {
    /// Nanoseconds since the session started at which the last heartbeat went out.
    pub last_sent_ns: Option<u64>,
}

impl Heartbeat {
    /// The first heartbeat is due at once; each later one once the interval has
    /// passed since the one before.
    pub open spec fn is_due(self, now_ns: u64) -> bool {
        match self.last_sent_ns {
            None => true,
            Some(sent) => now_ns - sent >= HEARTBEAT_INTERVAL_NS,
        }
    }

    /// No heartbeat sent yet.
    pub fn new() -> (heartbeat: Self)
        ensures
            heartbeat.last_sent_ns is None,
    {
        Heartbeat { last_sent_ns: None }
    }

    /// Whether a heartbeat is due at `now_ns` (nanoseconds since the session started).
    pub fn due(&self, now_ns: u64) -> (due: bool)
        ensures
            due == self.is_due(now_ns),
    {
        match self.last_sent_ns {
            None => true,
            Some(sent) => now_ns >= sent && now_ns - sent >= HEARTBEAT_INTERVAL_NS,
        }
    }

    /// Records that a heartbeat went out at `now_ns`.
    pub fn sent(&mut self, now_ns: u64)
        ensures
            final(self).last_sent_ns == Some(now_ns),
    {
        self.last_sent_ns = Some(now_ns);
    }
}

/// What the battery session asks the caller to do after a report.
#[derive(Debug, Clone, Copy, PartialEq, Eq, Structural)]
pub enum BatteryAction {
    /// Nothing to show; keep reading.
    Wait,
    /// Say that the controller is no longer connected (watch mode).
    ShowDisconnected,
    /// Show this status and keep reading (watch mode).
    Show(Status),
    /// Show this status and end the session (single-shot mode).
    Finish(Status),
}

/// State of a battery reading: single-shot, or watching for changes.
#[derive(Debug, Clone, Copy, PartialEq, Eq, Structural)]
pub struct BatterySession {
    /// Keep monitoring instead of stopping at the first valid state.
    pub watch: bool,
    /// Dump every raw report read.
    pub raw: bool,
    /// Whether the last status frame had a controller behind it.
    pub connected: bool,
    /// The status shown last in watch mode, since the controller (re)connected.
    pub last_shown: Option<Status>,
}

/// The next battery session state and the action, given the status that a report
/// holds (`None` when it holds none). A frame without a controller marks the
/// controller disconnected, which watch mode announces once; in watch mode a live
/// status is shown when it differs from the one shown last; in single-shot mode
/// the first live status ends the session.
pub open spec fn battery_step(session: BatterySession, report: Option<Status>) -> (
    BatterySession,
    BatteryAction,
) {
    match report {
        None => (session, BatteryAction::Wait),
        Some(status) => if !status.live {
            if session.connected {
                (
                    BatterySession { connected: false, last_shown: None, ..session },
                    if session.watch {
                        BatteryAction::ShowDisconnected
                    } else {
                        BatteryAction::Wait
                    },
                )
            } else {
                (session, BatteryAction::Wait)
            }
        } else if session.watch {
            if session.last_shown != Some(status) {
                (
                    BatterySession { connected: true, last_shown: Some(status), ..session },
                    BatteryAction::Show(status),
                )
            } else {
                (BatterySession { connected: true, ..session }, BatteryAction::Wait)
            }
        } else {
            (BatterySession { connected: true, ..session }, BatteryAction::Finish(status))
        },
    }
}

impl BatterySession {
    /// A fresh session: nothing connected, nothing shown.
    pub fn new(watch: bool, raw: bool) -> (session: Self)
        ensures
            session == (BatterySession { watch, raw, connected: false, last_shown: None }),
    {
        BatterySession { watch, raw, connected: false, last_shown: None }
    }

    /// Takes in one report read from the device.
    pub fn on_report(&mut self, report: &[u8]) -> (action: BatteryAction)
        ensures
            (*final(self), action) == battery_step(*old(self), status_of(report@)),
    {
        match parse_status(report) {
            None => BatteryAction::Wait,
            Some(status) => {
                if !status.live {
                    // The receiver is there, but no controller is connected behind
                    // it (stick centers and battery all 0 is not a normal state).
                    if self.connected {
                        self.connected = false;
                        self.last_shown = None;
                        if self.watch {
                            BatteryAction::ShowDisconnected
                        } else {
                            BatteryAction::Wait
                        }
                    } else {
                        BatteryAction::Wait
                    }
                } else {
                    self.connected = true;
                    if self.watch {
                        let changed = match self.last_shown {
                            None => true,
                            Some(shown) => shown != status,
                        };
                        if changed {
                            self.last_shown = Some(status);
                            BatteryAction::Show(status)
                        } else {
                            BatteryAction::Wait
                        }
                    } else {
                        // Single-shot mode: stop as soon as the first valid state is read.
                        BatteryAction::Finish(status)
                    }
                }
            },
        }
    }

    /// Whether a single-shot reading has waited too long, `elapsed_ns` after it
    /// started; a watching session never times out.
    pub fn timed_out(&self, elapsed_ns: u64) -> (timed_out: bool)
        ensures
            timed_out == (!self.watch && elapsed_ns >= STATUS_TIMEOUT_NS),
    {
        !self.watch && elapsed_ns >= STATUS_TIMEOUT_NS
    }
}

/// Whether the battery command rediscovers the device after an error: only in
/// watch mode, where turning the controller off and on re-enumerates the device.
pub fn battery_reconnects(watch: bool) -> (reconnects: bool)
    ensures
        reconnects == watch,
{
    watch
}

/// State of the button test.
#[derive(Debug, Clone, Copy, PartialEq, Eq, Structural)]
pub struct ButtonSession {
    /// The input shown last.
    pub last_shown: Option<Input>,
}

/// The next button session state and the input to show, given the input that a
/// report holds: frames without a controller are ignored, and a live input is
/// shown when it differs from the one shown last.
pub open spec fn button_step(session: ButtonSession, report: Option<Input>) -> (
    ButtonSession,
    Option<Input>,
) {
    match report {
        Some(input) => if input.live && session.last_shown != Some(input) {
            (ButtonSession { last_shown: Some(input) }, Some(input))
        } else {
            (session, None)
        },
        None => (session, None),
    }
}

impl ButtonSession {
    /// A fresh session with nothing shown.
    pub fn new() -> (session: Self)
        ensures
            session.last_shown is None,
    {
        ButtonSession { last_shown: None }
    }

    /// Takes in one report read from the device; returns the input to show, if any.
    pub fn on_report(&mut self, report: &[u8]) -> (show: Option<Input>)
        ensures
            (*final(self), show) == button_step(*old(self), input_of(report@)),
    {
        match parse_input(report) {
            None => None,
            Some(input) => {
                if !input.live {
                    return None;
                }
                let changed = match self.last_shown {
                    None => true,
                    Some(shown) => shown != input,
                };
                if changed {
                    self.last_shown = Some(input);
                    Some(input)
                } else {
                    None
                }
            },
        }
    }
}

/// What a long-running session does after an error.
#[derive(Debug, Clone, Copy, PartialEq, Eq, Structural)]
pub enum AfterError {
    /// Report the error and stop.
    GiveUp,
    /// Wait this many milliseconds, then rediscover and reopen the device.
    RetryAfterMs(u64),
}

/// A permission error cannot go away by retrying; any other error (the device
/// re-enumerated, the handle went stale) is retried after a pause.
pub fn after_error(permission_denied: bool) -> (next: AfterError)
    ensures
        next == if permission_denied {
            AfterError::GiveUp
        } else {
            AfterError::RetryAfterMs(RECONNECT_DELAY_MS)
        },
{
    if permission_denied {
        AfterError::GiveUp
    } else {
        AfterError::RetryAfterMs(RECONNECT_DELAY_MS)
    }
}

/// One step of the rumble test.
#[derive(Debug, Clone, Copy)]
pub enum RumbleStep {
    /// Write this output report.
    Send([u8; 64]),
    /// Pause for this many milliseconds.
    Pause(u64),
    /// Print this line.
    Say(&'static str),
}

/// The rumble test: one heartbeat to make sure the command channel is alive,
/// then both motors at 0xc0 for 400 ms, then both off.
pub fn rumble_script() -> (steps: Vec<RumbleStep>)
    ensures
        steps@.len() == 7,
        steps@[0] matches RumbleStep::Send(r) && r@ == heartbeat_bytes(),
        steps@[1] == RumbleStep::Pause(50),
        steps@[2] matches RumbleStep::Say(s) && s@ == "Rumble test..."@,
        steps@[3] matches RumbleStep::Send(r) && r@ == rumble_bytes(0xc0, 0xc0),
        steps@[4] == RumbleStep::Pause(400),
        steps@[5] matches RumbleStep::Send(r) && r@ == rumble_bytes(0x00, 0x00),
        steps@[6] matches RumbleStep::Say(s) && s@ == "Done"@,
{
    let mut steps: Vec<RumbleStep> = Vec::new();
    steps.push(RumbleStep::Send(heartbeat_report()));
    steps.push(RumbleStep::Pause(50));
    steps.push(RumbleStep::Say("Rumble test..."));
    steps.push(RumbleStep::Send(rumble_report(0xc0, 0xc0)));
    steps.push(RumbleStep::Pause(400));
    steps.push(RumbleStep::Send(rumble_report(0x00, 0x00)));
    steps.push(RumbleStep::Say("Done"));
    steps
}

/// Once a heartbeat went out at `sent_ns`, the next one is due exactly when the
/// interval has passed.
pub proof fn lemma_heartbeat_interval(sent_ns: u64, now_ns: u64)
    requires
        now_ns >= sent_ns,
    ensures
        (Heartbeat { last_sent_ns: Some(sent_ns) }).is_due(now_ns) <==> now_ns >= sent_ns
            + HEARTBEAT_INTERVAL_NS,
        (Heartbeat { last_sent_ns: None }).is_due(now_ns),
{
}

/// A report that holds no status changes nothing and asks for nothing.
pub proof fn lemma_battery_ignores_other_reports(session: BatterySession)
    ensures
        battery_step(session, None) == (session, BatteryAction::Wait),
{
}

/// A single-shot reading never shows anything but its final status, and it ends
/// at the first live status.
pub proof fn lemma_single_shot_finishes_at_first_live_status(
    session: BatterySession,
    report: Option<Status>,
)
    requires
        !session.watch,
    ensures
        battery_step(session, report).1 is Wait || battery_step(session, report).1 is Finish,
        report matches Some(status) ==> (status.live ==> battery_step(session, report).1
            == BatteryAction::Finish(status)),
{
}

/// In watch mode a status is shown once: the same live status read again right
/// after is not shown again.
pub proof fn lemma_watch_shows_each_status_once(session: BatterySession, status: Status)
    requires
        session.watch,
        status.live,
    ensures
        battery_step(battery_step(session, Some(status)).0, Some(status)).1
            == BatteryAction::Wait,
        battery_step(session, Some(status)).0.last_shown == Some(status),
{
}

/// In watch mode losing the controller is announced once, and the first status
/// after it comes back is shown even when it equals the one shown before.
pub proof fn lemma_watch_reconnect_shows_status_again(
    session: BatterySession,
    gone: Status,
    status: Status,
)
    requires
        session.watch,
        session.connected,
        !gone.live,
        status.live,
    ensures
        battery_step(session, Some(gone)).1 == BatteryAction::ShowDisconnected,
        battery_step(battery_step(session, Some(gone)).0, Some(gone)).1 == BatteryAction::Wait,
        battery_step(battery_step(session, Some(gone)).0, Some(status)).1 == BatteryAction::Show(
            status,
        ),
{
}

/// The button test ignores frames without a controller and reports without
/// input, and shows a live input once until it changes.
pub proof fn lemma_button_test_shows_changes_only(
    session: ButtonSession,
    report: Option<Input>,
    input: Input,
)
    requires
        input.live,
    ensures
        (report matches Some(i) && !i.live) ==> button_step(session, report) == (session, None::<Input>),
        report is None ==> button_step(session, report) == (session, None::<Input>),
        button_step(session, Some(input)).1 == (if session.last_shown == Some(input) {
            None
        } else {
            Some(input)
        }),
        button_step(button_step(session, Some(input)).0, Some(input)).1 is None,
{
}

/// How the battery session answers each status, stated case by case: mode and
/// raw flag never change; a frame without a controller, after a live one,
/// forgets the status shown and is announced in watch mode only; in watch mode a
/// live status different from the last one shown (any field: level, charging)
/// is shown and remembered, and the same one again is not; in single-shot mode a
/// live status ends the session.
pub proof fn lemma_battery_rules(session: BatterySession, status: Status)
    ensures
        battery_step(session, Some(status)).0.watch == session.watch,
        battery_step(session, Some(status)).0.raw == session.raw,
        (!status.live && session.connected) ==> (!battery_step(session, Some(status)).0.connected
            && battery_step(session, Some(status)).0.last_shown is None && battery_step(
            session,
            Some(status),
        ).1 == (if session.watch {
            BatteryAction::ShowDisconnected
        } else {
            BatteryAction::Wait
        })),
        (!status.live && !session.connected) ==> battery_step(session, Some(status)) == (
            session,
            BatteryAction::Wait,
        ),
        (status.live && session.watch && session.last_shown != Some(status)) ==> (battery_step(
            session,
            Some(status),
        ).1 == BatteryAction::Show(status) && battery_step(session, Some(status)).0.connected
            && battery_step(session, Some(status)).0.last_shown == Some(status)),
        (status.live && session.watch && session.last_shown == Some(status)) ==> (battery_step(
            session,
            Some(status),
        ).1 == BatteryAction::Wait && battery_step(session, Some(status)).0.connected
            && battery_step(session, Some(status)).0.last_shown == Some(status)),
        (status.live && !session.watch) ==> (battery_step(session, Some(status)).1
            == BatteryAction::Finish(status) && battery_step(session, Some(status)).0.connected),
{
}

/// In watch mode any change of the battery level is shown, even when the
/// charging state stays the same.
pub proof fn lemma_watch_shows_level_changes(session: BatterySession, shown: Status, next: Status)
    requires
        session.watch,
        session.last_shown == Some(shown),
        next.live,
        next.battery != shown.battery,
    ensures
        battery_step(session, Some(next)).1 == BatteryAction::Show(next),
{
}

/// How the button test answers each input: a live input different from the last
/// one shown is shown and remembered; the same one again, or a frame without a
/// controller, changes nothing.
pub proof fn lemma_button_rules(session: ButtonSession, input: Input)
    ensures
        (input.live && session.last_shown != Some(input)) ==> button_step(session, Some(input))
            == (ButtonSession { last_shown: Some(input) }, Some(input)),
        (input.live && session.last_shown == Some(input)) ==> button_step(session, Some(input))
            == (session, None::<Input>),
        !input.live ==> button_step(session, Some(input)) == (session, None::<Input>),
{
}

/// The session timings: a heartbeat every 500 ms, reads that wait 100 ms, a
/// single-shot reading that gives up after 5 s, a 2 s pause before reconnecting.
pub proof fn lemma_session_timings()
    ensures
        HEARTBEAT_INTERVAL_NS == 500_000_000,
        READ_TIMEOUT_MS == 100,
        STATUS_TIMEOUT_NS == 5_000_000_000,
        RECONNECT_DELAY_MS == 2000,
{
}

/// A heartbeat is due exactly when none was sent yet or at least 500 ms have passed
/// since the last one.
pub proof fn lemma_heartbeat_due_after_500_ms(heartbeat: Heartbeat, now_ns: u64)
    ensures
        heartbeat.is_due(now_ns) <==> match heartbeat.last_sent_ns {
            None => true,
            Some(sent) => now_ns >= sent + 500_000_000,
        },
{
}

} // verus!
