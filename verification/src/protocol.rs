//! GameSir G7 Pro 8K's private HID protocol: report IDs, field offsets,
//! heartbeat, rumble and status reports.

use vstd::prelude::*;

verus! {

/// Output report ID shared by the heartbeat and the commands.
pub const REPORT_HEARTBEAT: u8 = 0x0f;

/// Input report ID of the enhanced status report.
pub const REPORT_STATUS: u8 = 0x12;

/// Length of every output report.
pub const REPORT_LEN: usize = 64;

// G7 Pro 8K enhanced status report
pub const LX_OFFSET: usize = 1;

pub const LY_OFFSET: usize = 2;

pub const RX_OFFSET: usize = 3;

pub const RY_OFFSET: usize = 4;

/// dpad (low nibble) + X/A/B/Y (high nibble)
pub const BUTTONS1_OFFSET: usize = 5;

/// LB/RB/LT digital/RT digital/View/Menu/LS/RS
pub const BUTTONS2_OFFSET: usize = 6;

pub const LT_OFFSET: usize = 8;

pub const RT_OFFSET: usize = 9;

pub const CHARGING_OFFSET: usize = 35;

pub const BATTERY_OFFSET: usize = 36;

/// Home/Share/L4/R4/M (paddles/front button, firmware-only)
pub const BUTTONS3_OFFSET: usize = 60;

/// Subcommand byte of the heartbeat report.
pub const HEARTBEAT_SUBCOMMAND: u8 = 0xf2;

/// Subcommand byte of the rumble report.
pub const RUMBLE_SUBCOMMAND: u8 = 0x20;

/// `n` zero bytes.
pub open spec fn zeros(n: nat) -> Seq<u8> {
    Seq::new(n, |i: int| 0u8)
}

/// The bytes of the heartbeat report: `0f f2` followed by zeros.
pub open spec fn heartbeat_bytes() -> Seq<u8> {
    seq![REPORT_HEARTBEAT, HEARTBEAT_SUBCOMMAND] + zeros(62)
}

/// The bytes of the rumble report: `0f 20 66 55 <left> <right>` followed by zeros.
pub open spec fn rumble_bytes(left: u8, right: u8) -> Seq<u8> {
    seq![REPORT_HEARTBEAT, RUMBLE_SUBCOMMAND, 0x66u8, 0x55u8, left, right] + zeros(58)
}

/// Heartbeat report: `0f f2 00 00 ...`.
pub fn heartbeat_report() -> (report: [u8; 64])
    ensures
        report@ == heartbeat_bytes(),
{
    let mut report = [0u8; 64];
    report[0] = REPORT_HEARTBEAT;
    report[1] = HEARTBEAT_SUBCOMMAND;
    assert(report@ =~= heartbeat_bytes());
    report
}

/// Rumble test report: `0f 20 66 55 <left> <right> 00 00 ...`.
/// Commands share the same output report ID (0x0f) as the heartbeat, distinguished
/// by the subcommand byte at `report[1]`.
pub fn rumble_report(left: u8, right: u8) -> (report: [u8; 64])
    ensures
        report@ == rumble_bytes(left, right),
{
    let mut report = [0u8; 64];
    report[0] = REPORT_HEARTBEAT;
    report[1] = RUMBLE_SUBCOMMAND;
    report[2] = 0x66;
    report[3] = 0x55;
    report[4] = left;
    report[5] = right;
    assert(report@ =~= rumble_bytes(left, right));
    report
}

/// Battery state read from a status report.
#[derive(Debug, Clone, Copy, PartialEq, Eq, Structural)]
pub struct Status {
    pub battery: u8,
    pub charging: bool,
    /// Whether this frame actually has a controller behind it, rather than being a
    /// placeholder frame from an idle/not-yet-synced receiver (report ID matches,
    /// but the sticks and battery are all 0). Sticks at rest read close to 128,
    /// never really 0, so any nonzero field counts as live.
    pub live: bool,
}

/// Whether `mask` selects a set bit of `byte`.
pub open spec fn bit_set(byte: u8, mask: u8) -> bool {
    byte & mask != 0
}

/// A frame is live when a stick axis or the battery byte is nonzero.
pub open spec fn frame_is_live(buf: Seq<u8>) -> bool {
    ||| buf[LX_OFFSET as int] != 0
    ||| buf[LY_OFFSET as int] != 0
    ||| buf[RX_OFFSET as int] != 0
    ||| buf[RY_OFFSET as int] != 0
    ||| buf[BATTERY_OFFSET as int] != 0
}

/// What a status report says: `None` unless the buffer reaches the battery byte,
/// starts with the status report ID and holds a battery percentage of at most 100.
pub open spec fn status_of(buf: Seq<u8>) -> Option<Status> {
    if buf.len() <= BATTERY_OFFSET || buf[0] != REPORT_STATUS || buf[BATTERY_OFFSET as int]
        > 100 {
        None
    } else {
        Some(
            Status {
                battery: buf[BATTERY_OFFSET as int],
                charging: bit_set(buf[CHARGING_OFFSET as int], 0x01),
                live: frame_is_live(buf),
            },
        )
    }
}

fn frame_live(buf: &[u8]) -> (live: bool)
    requires
        buf@.len() > BATTERY_OFFSET,
    ensures
        live == frame_is_live(buf@),
{
    buf[LX_OFFSET] != 0 || buf[LY_OFFSET] != 0 || buf[RX_OFFSET] != 0 || buf[RY_OFFSET] != 0
        || buf[BATTERY_OFFSET] != 0
}

/// Parse battery status from a raw report obtained by read().
/// Returns None if it's not a valid 0x12 status report, or a field is clearly invalid.
pub fn parse_status(buf: &[u8]) -> (status: Option<Status>)
    ensures
        status == status_of(buf@),
{
    if buf.len() <= BATTERY_OFFSET {
        return None;
    }
    if buf[0] != REPORT_STATUS {
        return None;
    }
    let battery = buf[BATTERY_OFFSET];
    // Guard against treating a clearly invalid value as a percentage
    if battery > 100 {
        return None;
    }
    let charging = (buf[CHARGING_OFFSET] & 0x01) != 0;
    let live = frame_live(buf);
    Some(Status { battery, charging, live })
}

/// Direction of the d-pad.
#[derive(Debug, Clone, Copy, PartialEq, Eq, Structural)]
pub enum Dpad {
    Neutral,
    Up,
    UpRight,
    Right,
    DownRight,
    Down,
    DownLeft,
    Left,
    UpLeft,
}

impl Default for Dpad {
    fn default() -> (dpad: Self)
        ensures
            dpad == Dpad::Neutral,
    {
        Dpad::Neutral
    }
}

/// The direction that a d-pad nibble encodes: 0 is Up, and each step turns
/// clockwise by 45 degrees up to 7 (UpLeft); every other value is Neutral
/// (the common "not pressed" values are 8 and 15).
pub open spec fn dpad_of(nibble: u8) -> Dpad {
    if nibble == 0 {
        Dpad::Up
    } else if nibble == 1 {
        Dpad::UpRight
    } else if nibble == 2 {
        Dpad::Right
    } else if nibble == 3 {
        Dpad::DownRight
    } else if nibble == 4 {
        Dpad::Down
    } else if nibble == 5 {
        Dpad::DownLeft
    } else if nibble == 6 {
        Dpad::Left
    } else if nibble == 7 {
        Dpad::UpLeft
    } else {
        Dpad::Neutral
    }
}

/// Decode the d-pad nibble.
pub fn parse_dpad(nibble: u8) -> (dpad: Dpad)
    ensures
        dpad == dpad_of(nibble),
{
    match nibble {
        0x0 => Dpad::Up,
        0x1 => Dpad::UpRight,
        0x2 => Dpad::Right,
        0x3 => Dpad::DownRight,
        0x4 => Dpad::Down,
        0x5 => Dpad::DownLeft,
        0x6 => Dpad::Left,
        0x7 => Dpad::UpLeft,
        _ => Dpad::Neutral,
    }
}

/// Digital state of every control of the pad.
#[derive(Debug, Clone, Copy, PartialEq, Eq, Structural)]
pub struct Buttons {
    pub dpad: Dpad,
    pub a: bool,
    pub b: bool,
    pub x: bool,
    pub y: bool,
    pub lb: bool,
    pub rb: bool,
    pub lt_digital: bool,
    pub rt_digital: bool,
    pub view: bool,
    pub menu: bool,
    pub ls: bool,
    pub rs: bool,
    pub home: bool,
    pub share: bool,
    pub l4: bool,
    pub r4: bool,
    pub m: bool,
}

/// The state with nothing pressed and the d-pad neutral.
pub open spec fn no_buttons() -> Buttons {
    Buttons {
        dpad: Dpad::Neutral,
        a: false,
        b: false,
        x: false,
        y: false,
        lb: false,
        rb: false,
        lt_digital: false,
        rt_digital: false,
        view: false,
        menu: false,
        ls: false,
        rs: false,
        home: false,
        share: false,
        l4: false,
        r4: false,
        m: false,
    }
}

impl Default for Buttons {
    fn default() -> (buttons: Self)
        ensures
            buttons == no_buttons(),
    {
        Buttons {
            dpad: Dpad::Neutral,
            a: false,
            b: false,
            x: false,
            y: false,
            lb: false,
            rb: false,
            lt_digital: false,
            rt_digital: false,
            view: false,
            menu: false,
            ls: false,
            rs: false,
            home: false,
            share: false,
            l4: false,
            r4: false,
            m: false,
        }
    }
}

/// The names of the pressed entries of a table of (pressed, name) pairs, in
/// table order.
pub open spec fn pressed_in(table: Seq<(bool, Seq<char>)>) -> Seq<Seq<char>>
    decreases table.len(),
{
    if table.len() == 0 {
        Seq::empty()
    } else {
        let rest = pressed_in(table.drop_last());
        if table.last().0 {
            rest.push(table.last().1)
        } else {
            rest
        }
    }
}

/// The names of the buttons, in the fixed order
/// A B X Y LB RB LT RT View Menu LS RS Home Share L4 R4 M.
pub open spec fn button_names() -> Seq<Seq<char>> {
    seq![
        "A"@,
        "B"@,
        "X"@,
        "Y"@,
        "LB"@,
        "RB"@,
        "LT"@,
        "RT"@,
        "View"@,
        "Menu"@,
        "LS"@,
        "RS"@,
        "Home"@,
        "Share"@,
        "L4"@,
        "R4"@,
        "M"@,
    ]
}

/// Each name paired with the flag at the same position.
pub open spec fn pair_up(flags: Seq<bool>, names: Seq<Seq<char>>) -> Seq<(bool, Seq<char>)> {
    Seq::new(names.len(), |k: int| (flags[k], names[k]))
}

impl Buttons {
    /// The state of every button except the d-pad, in the order of
    /// `button_names`.
    pub open spec fn flags(self) -> Seq<bool> {
        seq![
            self.a,
            self.b,
            self.x,
            self.y,
            self.lb,
            self.rb,
            self.lt_digital,
            self.rt_digital,
            self.view,
            self.menu,
            self.ls,
            self.rs,
            self.home,
            self.share,
            self.l4,
            self.r4,
            self.m,
        ]
    }

    /// Every button with its name, in the fixed order of `button_names`.
    pub open spec fn button_table(self) -> Seq<(bool, Seq<char>)> {
        pair_up(self.flags(), button_names())
    }

    /// The names of the pressed buttons, in the order of `button_table`.
    pub open spec fn pressed_names(self) -> Seq<Seq<char>> {
        pressed_in(self.button_table())
    }

    /// Names of all currently pressed buttons, in a fixed order.
    pub fn pressed(&self) -> (names: Vec<&'static str>)
        ensures
            names_view(names@) == self.pressed_names(),
    {
        let flags: [(bool, &'static str); 17] = [
            (self.a, "A"),
            (self.b, "B"),
            (self.x, "X"),
            (self.y, "Y"),
            (self.lb, "LB"),
            (self.rb, "RB"),
            (self.lt_digital, "LT"),
            (self.rt_digital, "RT"),
            (self.view, "View"),
            (self.menu, "Menu"),
            (self.ls, "LS"),
            (self.rs, "RS"),
            (self.home, "Home"),
            (self.share, "Share"),
            (self.l4, "L4"),
            (self.r4, "R4"),
            (self.m, "M"),
        ];
        let ghost table = self.button_table();
        assert(table.len() == 17);
        assert(forall|k: int|
            0 <= k < 17 ==> #[trigger] table[k] == (flags@[k].0, flags@[k].1@));
        let mut names: Vec<&'static str> = Vec::new();
        let mut i: usize = 0;
        while i < 17
            invariant
                i <= 17,
                table == self.button_table(),
                table.len() == 17,
                forall|k: int| 0 <= k < 17 ==> #[trigger] table[k] == (flags@[k].0, flags@[k].1@),
                names_view(names@) == pressed_in(table.take(i as int)),
            decreases 17 - i,
        {
            let (pressed, name) = flags[i];
            assert(table.take(i + 1).drop_last() =~= table.take(i as int));
            assert(table.take(i + 1).last() == table[i as int]);
            if pressed {
                names.push(name);
            }
            assert(names_view(names@) =~= pressed_in(table.take(i + 1)));
            i = i + 1;
        }
        assert(table.take(17) =~= table);
        names
    }
}

/// The text of each name in a list of names.
pub open spec fn names_view(names: Seq<&'static str>) -> Seq<Seq<char>> {
    names.map_values(|name: &'static str| name@)
}

/// Stick, trigger and button state read from a status report.
#[derive(Debug, Clone, Copy, PartialEq, Eq, Structural)]
pub struct Input {
    pub lx: u8,
    pub ly: u8,
    pub rx: u8,
    pub ry: u8,
    pub lt: u8,
    pub rt: u8,
    pub buttons: Buttons,
    /// See `Status::live`: a placeholder frame has all-zero sticks, which happens to
    /// collide with the d-pad's 0x0 (Up) encoding.
    pub live: bool,
}

/// The buttons that the three button bytes of a status report encode.
pub open spec fn buttons_of(b5: u8, b6: u8, b60: u8) -> Buttons {
    Buttons {
        dpad: dpad_of(b5 & 0x0f),
        x: bit_set(b5, 0x10),
        a: bit_set(b5, 0x20),
        b: bit_set(b5, 0x40),
        y: bit_set(b5, 0x80),
        lb: bit_set(b6, 0x01),
        rb: bit_set(b6, 0x02),
        lt_digital: bit_set(b6, 0x04),
        rt_digital: bit_set(b6, 0x08),
        view: bit_set(b6, 0x10),
        menu: bit_set(b6, 0x20),
        ls: bit_set(b6, 0x40),
        rs: bit_set(b6, 0x80),
        home: bit_set(b60, 0x01),
        share: bit_set(b60, 0x02),
        l4: bit_set(b60, 0x08),
        r4: bit_set(b60, 0x10),
        m: bit_set(b60, 0x20),
    }
}

/// What a status report says of the controls: `None` unless the buffer reaches the
/// third button byte and starts with the status report ID.
pub open spec fn input_of(buf: Seq<u8>) -> Option<Input> {
    if buf.len() <= BUTTONS3_OFFSET || buf[0] != REPORT_STATUS {
        None
    } else {
        Some(
            Input {
                lx: buf[LX_OFFSET as int],
                ly: buf[LY_OFFSET as int],
                rx: buf[RX_OFFSET as int],
                ry: buf[RY_OFFSET as int],
                lt: buf[LT_OFFSET as int],
                rt: buf[RT_OFFSET as int],
                buttons: buttons_of(
                    buf[BUTTONS1_OFFSET as int],
                    buf[BUTTONS2_OFFSET as int],
                    buf[BUTTONS3_OFFSET as int],
                ),
                live: frame_is_live(buf),
            },
        )
    }
}

/// Decode the three button bytes of a status report.
pub fn decode_buttons(b5: u8, b6: u8, b60: u8) -> (buttons: Buttons)
    ensures
        buttons == buttons_of(b5, b6, b60),
{
    Buttons {
        dpad: parse_dpad(b5 & 0x0f),
        x: b5 & 0x10 != 0,
        a: b5 & 0x20 != 0,
        b: b5 & 0x40 != 0,
        y: b5 & 0x80 != 0,
        lb: b6 & 0x01 != 0,
        rb: b6 & 0x02 != 0,
        lt_digital: b6 & 0x04 != 0,
        rt_digital: b6 & 0x08 != 0,
        view: b6 & 0x10 != 0,
        menu: b6 & 0x20 != 0,
        ls: b6 & 0x40 != 0,
        rs: b6 & 0x80 != 0,
        home: b60 & 0x01 != 0,
        share: b60 & 0x02 != 0,
        l4: b60 & 0x08 != 0,
        r4: b60 & 0x10 != 0,
        m: b60 & 0x20 != 0,
    }
}

/// Parse stick/trigger/button state from a raw report obtained by read().
pub fn parse_input(buf: &[u8]) -> (input: Option<Input>)
    ensures
        input == input_of(buf@),
{
    if buf.len() <= BUTTONS3_OFFSET {
        return None;
    }
    if buf[0] != REPORT_STATUS {
        return None;
    }
    let buttons = decode_buttons(buf[BUTTONS1_OFFSET], buf[BUTTONS2_OFFSET], buf[BUTTONS3_OFFSET]);
    let live = frame_live(buf);
    Some(
        Input {
            lx: buf[LX_OFFSET],
            ly: buf[LY_OFFSET],
            rx: buf[RX_OFFSET],
            ry: buf[RY_OFFSET],
            lt: buf[LT_OFFSET],
            rt: buf[RT_OFFSET],
            buttons,
            live,
        },
    )
}

/// The heartbeat and the rumble command share the output report ID 0x0f and
/// differ in the subcommand byte that follows it.
pub proof fn lemma_commands_share_report_id(left: u8, right: u8)
    ensures
        heartbeat_bytes().len() == REPORT_LEN,
        rumble_bytes(left, right).len() == REPORT_LEN,
        heartbeat_bytes()[0] == REPORT_HEARTBEAT,
        rumble_bytes(left, right)[0] == REPORT_HEARTBEAT,
        heartbeat_bytes()[1] != rumble_bytes(left, right)[1],
{
}

/// No report that this library sends is ever read back as a status report.
pub proof fn lemma_output_reports_are_not_status(left: u8, right: u8)
    ensures
        status_of(heartbeat_bytes()) is None,
        input_of(heartbeat_bytes()) is None,
        status_of(rumble_bytes(left, right)) is None,
        input_of(rumble_bytes(left, right)) is None,
{
}

/// A frame that both parsers accept gets the same liveness from both, and a
/// frame that the input parser accepts is a valid status report exactly when its
/// battery byte is a percentage.
pub proof fn lemma_status_and_input_agree(buf: Seq<u8>)
    requires
        input_of(buf) is Some,
    ensures
        status_of(buf) is Some <==> buf[BATTERY_OFFSET as int] <= 100,
        status_of(buf) is Some ==> status_of(buf)->0.live == input_of(buf)->0.live,
{
}

/// A placeholder frame, whose sticks and battery byte are all zero, is never
/// live; any other frame is.
pub proof fn lemma_placeholder_frames_are_not_live(buf: Seq<u8>)
    requires
        buf.len() > BATTERY_OFFSET,
    ensures
        frame_is_live(buf) <==> !(buf[LX_OFFSET as int] == 0 && buf[LY_OFFSET as int] == 0
            && buf[RX_OFFSET as int] == 0 && buf[RY_OFFSET as int] == 0
            && buf[BATTERY_OFFSET as int] == 0),
        status_of(buf) matches Some(st) ==> (st.live <==> frame_is_live(buf)),
        input_of(buf) matches Some(inp) ==> (inp.live <==> frame_is_live(buf)),
{
}

/// A name is among the pressed names of a table exactly when some pressed entry
/// of the table carries it.
pub proof fn lemma_pressed_in_contains(table: Seq<(bool, Seq<char>)>, name: Seq<char>)
    ensures
        pressed_in(table).contains(name) <==> exists|k: int|
            0 <= k < table.len() && #[trigger] table[k] == (true, name),
    decreases table.len(),
{
    if table.len() > 0 {
        let init = table.drop_last();
        lemma_pressed_in_contains(init, name);
        let rest = pressed_in(init);
        if pressed_in(table).contains(name) {
            let i = choose|i: int| 0 <= i < pressed_in(table).len() && pressed_in(table)[i] == name;
            if i < rest.len() {
                assert(rest[i] == name);
                assert(rest.contains(name));
                let k = choose|k: int| 0 <= k < init.len() && #[trigger] init[k] == (true, name);
                assert(table[k] == (true, name));
            } else {
                assert(table.last().0 && table.last().1 == name);
                assert(table[table.len() - 1] == (true, name));
            }
        }
        if exists|k: int| 0 <= k < table.len() && #[trigger] table[k] == (true, name) {
            let k = choose|k: int| 0 <= k < table.len() && #[trigger] table[k] == (true, name);
            if k < table.len() - 1 {
                assert(init[k] == (true, name));
                let i = choose|i: int| 0 <= i < rest.len() && rest[i] == name;
                assert(pressed_in(table)[i] == name);
            } else {
                assert(pressed_in(table) == rest.push(name));
                assert(pressed_in(table)[rest.len() as int] == name);
            }
            assert(pressed_in(table).contains(name));
        }
    }
}

/// The names that `pressed` lists are those of the pressed buttons: each button's
/// name is listed exactly when that button is down.
pub proof fn lemma_pressed_lists_exactly_the_pressed_buttons(buttons: Buttons, k: int)
    requires
        0 <= k < buttons.button_table().len(),
    ensures
        buttons.pressed_names().contains(buttons.button_table()[k].1)
            <==> buttons.button_table()[k].0,
        buttons.pressed_names().len() <= buttons.button_table().len(),
{
    let table = buttons.button_table();
    let name = table[k].1;
    lemma_pressed_in_contains(table, name);
    lemma_names_distinct(buttons);
    if table[k].0 {
        assert(table[k] == (true, name));
    }
    lemma_pressed_in_len(table);
}

/// The d-pad never contributes a name: two button states that differ at most in
/// the d-pad list the same pressed names.
pub proof fn lemma_pressed_ignores_dpad(b1: Buttons, b2: Buttons)
    requires
        b1 == (Buttons { dpad: b1.dpad, ..b2 }),
    ensures
        b1.pressed_names() == b2.pressed_names(),
{
    lemma_flags_ignore_dpad(b1, b2);
}

proof fn lemma_flags_ignore_dpad(b1: Buttons, b2: Buttons)
    requires
        b1 == (Buttons { dpad: b1.dpad, ..b2 }),
    ensures
        b1.flags() == b2.flags(),
{
    assert(b1.flags() =~= b2.flags());
}

/// `sub` is a subsequence of `full`: `sub` is what remains of `full` after some
/// of its elements are removed, the rest kept in order.
pub open spec fn is_subsequence<T>(sub: Seq<T>, full: Seq<T>) -> bool
    decreases full.len(),
{
    if sub.len() == 0 {
        true
    } else if full.len() == 0 {
        false
    } else if sub.last() == full.last() {
        is_subsequence(sub.drop_last(), full.drop_last())
    } else {
        is_subsequence(sub, full.drop_last())
    }
}

/// A subsequence stays one when an element is appended to the longer sequence.
pub proof fn lemma_subsequence_push<T>(sub: Seq<T>, full: Seq<T>, x: T)
    requires
        is_subsequence(sub, full),
    ensures
        is_subsequence(sub, full.push(x)),
    decreases full.len(), 1int,
{
    assert(full.push(x).drop_last() =~= full);
    if sub.len() > 0 && sub.last() == x {
        lemma_subsequence_drop_last(sub, full);
    }
}

/// Dropping the last element of a nonempty subsequence keeps it one.
pub proof fn lemma_subsequence_drop_last<T>(sub: Seq<T>, full: Seq<T>)
    requires
        sub.len() > 0,
        is_subsequence(sub, full),
    ensures
        is_subsequence(sub.drop_last(), full),
    decreases full.len(), 0int,
{
    let init = full.drop_last();
    assert(init.push(full.last()) =~= full);
    if sub.last() == full.last() {
        lemma_subsequence_push(sub.drop_last(), init, full.last());
    } else {
        lemma_subsequence_drop_last(sub, init);
        lemma_subsequence_push(sub.drop_last(), init, full.last());
    }
}

/// Two tables with the same names, where each entry pressed in the first is
/// pressed in the second: the pressed names of the first are a subsequence of
/// those of the second, and no more numerous.
pub proof fn lemma_pressed_in_monotone(t1: Seq<(bool, Seq<char>)>, t2: Seq<(bool, Seq<char>)>)
    requires
        t1.len() == t2.len(),
        forall|k: int| 0 <= k < t1.len() ==> #[trigger] t1[k].1 == t2[k].1,
        forall|k: int| 0 <= k < t1.len() ==> #[trigger] t1[k].0 ==> t2[k].0,
    ensures
        is_subsequence(pressed_in(t1), pressed_in(t2)),
        pressed_in(t1).len() <= pressed_in(t2).len(),
    decreases t1.len(),
{
    if t1.len() > 0 {
        let i1 = t1.drop_last();
        let i2 = t2.drop_last();
        assert forall|k: int| 0 <= k < i1.len() implies #[trigger] i1[k].1 == i2[k].1 by {
            assert(t1[k].1 == t2[k].1);
        }
        assert forall|k: int| 0 <= k < i1.len() && #[trigger] i1[k].0 implies i2[k].0 by {
            assert(t1[k].0 ==> t2[k].0);
        }
        lemma_pressed_in_monotone(i1, i2);
        let r1 = pressed_in(i1);
        let r2 = pressed_in(i2);
        let n = t1.last().1;
        assert(t1[t1.len() - 1].1 == t2[t2.len() - 1].1);
        assert(t1[t1.len() - 1].0 ==> t2[t2.len() - 1].0);
        if t1.last().0 {
            assert(r1.push(n).drop_last() =~= r1);
            assert(r2.push(n).drop_last() =~= r2);
        } else if t2.last().0 {
            lemma_subsequence_push(r1, r2, n);
        }
    }
}

/// Pressing more buttons only adds names: when every button pressed in `b1` is
/// pressed in `b2`, the names listed for `b1` are a subsequence of those listed
/// for `b2`, and no more numerous.
pub proof fn lemma_pressed_monotone(b1: Buttons, b2: Buttons)
    requires
        forall|k: int|
            0 <= k < b1.button_table().len() ==> #[trigger] b1.button_table()[k].0
                ==> b2.button_table()[k].0,
    ensures
        is_subsequence(b1.pressed_names(), b2.pressed_names()),
        b1.pressed_names().len() <= b2.pressed_names().len(),
{
    let t1 = b1.button_table();
    let t2 = b2.button_table();
    assert forall|k: int| 0 <= k < t1.len() implies #[trigger] t1[k].1 == t2[k].1 by {}
    lemma_pressed_in_monotone(t1, t2);
}

proof fn lemma_pressed_in_len(table: Seq<(bool, Seq<char>)>)
    ensures
        pressed_in(table).len() <= table.len(),
    decreases table.len(),
{
    if table.len() > 0 {
        lemma_pressed_in_len(table.drop_last());
    }
}

proof fn lemma_names_distinct(buttons: Buttons)
    ensures
        forall|i: int, j: int|
            0 <= i < j < buttons.button_table().len() ==> buttons.button_table()[i].1
                != buttons.button_table()[j].1,
{
    reveal_strlit("A");
    reveal_strlit("B");
    reveal_strlit("X");
    reveal_strlit("Y");
    reveal_strlit("LB");
    reveal_strlit("RB");
    reveal_strlit("LT");
    reveal_strlit("RT");
    reveal_strlit("View");
    reveal_strlit("Menu");
    reveal_strlit("LS");
    reveal_strlit("RS");
    reveal_strlit("Home");
    reveal_strlit("Share");
    reveal_strlit("L4");
    reveal_strlit("R4");
    reveal_strlit("M");
    let t = buttons.button_table();
    assert forall|i: int, j: int| 0 <= i < j < t.len() implies t[i].1 != t[j].1 by {
        assert(t[i].1.len() != t[j].1.len() || t[i].1[0] != t[j].1[0] || t[i].1[t[i].1.len() - 1]
            != t[j].1[t[j].1.len() - 1]);
    }
}

/// Every byte of the heartbeat report: 0x0f, 0xf2, then sixty-two zeros.
pub proof fn lemma_heartbeat_layout()
    ensures
        heartbeat_bytes().len() == 64,
        heartbeat_bytes()[0] == 0x0f,
        heartbeat_bytes()[1] == 0xf2,
        forall|i: int| 2 <= i < 64 ==> #[trigger] heartbeat_bytes()[i] == 0,
{
}

/// Every byte of the rumble report: 0x0f 0x20 0x66 0x55, the left and the right
/// motor intensities as given, then fifty-eight zeros. Two rumble reports differ
/// only in the two intensity bytes.
pub proof fn lemma_rumble_layout(left: u8, right: u8)
    ensures
        rumble_bytes(left, right).len() == 64,
        rumble_bytes(left, right)[0] == 0x0f,
        rumble_bytes(left, right)[1] == 0x20,
        rumble_bytes(left, right)[2] == 0x66,
        rumble_bytes(left, right)[3] == 0x55,
        rumble_bytes(left, right)[4] == left,
        rumble_bytes(left, right)[5] == right,
        forall|i: int| 6 <= i < 64 ==> #[trigger] rumble_bytes(left, right)[i] == 0,
{
}

/// What a status report yields, byte by byte: a report is accepted exactly when
/// it has at least 37 bytes, starts with 0x12 and its byte 36 is at most 100;
/// the battery is byte 36, charging is bit 0x01 of byte 35 (whatever the
/// battery), and the frame is live exactly when byte 1, 2, 3, 4 or 36 is nonzero.
pub proof fn lemma_status_fields(buf: Seq<u8>)
    ensures
        status_of(buf) is Some <==> (buf.len() >= 37 && buf[0] == 0x12 && buf[36] <= 100),
        status_of(buf) matches Some(st) ==> (st.battery == buf[36] && (st.charging <==> (buf[35]
            & 0x01u8) != 0u8) && (st.live <==> (buf[1] != 0 || buf[2] != 0 || buf[3] != 0
            || buf[4] != 0 || buf[36] != 0))),
{
}

/// What a status report yields for the controls, byte by byte: a report is
/// accepted exactly when it has at least 61 bytes and starts with 0x12; the
/// sticks are bytes 1 to 4, the analog triggers bytes 8 and 9, the buttons come
/// from bytes 5, 6 and 60, and liveness is that of `lemma_status_fields`.
pub proof fn lemma_input_fields(buf: Seq<u8>)
    ensures
        input_of(buf) is Some <==> (buf.len() >= 61 && buf[0] == 0x12),
        input_of(buf) matches Some(inp) ==> (inp.lx == buf[1] && inp.ly == buf[2] && inp.rx
            == buf[3] && inp.ry == buf[4] && inp.lt == buf[8] && inp.rt == buf[9] && inp.buttons
            == buttons_of(buf[5], buf[6], buf[60]) && (inp.live <==> (buf[1] != 0 || buf[2] != 0
            || buf[3] != 0 || buf[4] != 0 || buf[36] != 0))),
{
}

/// Each button is one fixed bit of the button bytes: X, A, B, Y are bits 0x10,
/// 0x20, 0x40, 0x80 of byte 5; LB, RB, LT, RT, View, Menu, LS, RS are bits 0x01
/// to 0x80 of byte 6; Home, Share, L4, R4, M are bits 0x01, 0x02, 0x08, 0x10,
/// 0x20 of byte 60; the d-pad is the low nibble of byte 5.
pub proof fn lemma_button_bits(b5: u8, b6: u8, b60: u8)
    ensures
        buttons_of(b5, b6, b60).x <==> (b5 & 0x10u8) != 0u8,
        buttons_of(b5, b6, b60).a <==> (b5 & 0x20u8) != 0u8,
        buttons_of(b5, b6, b60).b <==> (b5 & 0x40u8) != 0u8,
        buttons_of(b5, b6, b60).y <==> (b5 & 0x80u8) != 0u8,
        buttons_of(b5, b6, b60).lb <==> (b6 & 0x01u8) != 0u8,
        buttons_of(b5, b6, b60).rb <==> (b6 & 0x02u8) != 0u8,
        buttons_of(b5, b6, b60).lt_digital <==> (b6 & 0x04u8) != 0u8,
        buttons_of(b5, b6, b60).rt_digital <==> (b6 & 0x08u8) != 0u8,
        buttons_of(b5, b6, b60).view <==> (b6 & 0x10u8) != 0u8,
        buttons_of(b5, b6, b60).menu <==> (b6 & 0x20u8) != 0u8,
        buttons_of(b5, b6, b60).ls <==> (b6 & 0x40u8) != 0u8,
        buttons_of(b5, b6, b60).rs <==> (b6 & 0x80u8) != 0u8,
        buttons_of(b5, b6, b60).home <==> (b60 & 0x01u8) != 0u8,
        buttons_of(b5, b6, b60).share <==> (b60 & 0x02u8) != 0u8,
        buttons_of(b5, b6, b60).l4 <==> (b60 & 0x08u8) != 0u8,
        buttons_of(b5, b6, b60).r4 <==> (b60 & 0x10u8) != 0u8,
        buttons_of(b5, b6, b60).m <==> (b60 & 0x20u8) != 0u8,
        buttons_of(b5, b6, b60).dpad == dpad_of(b5 & 0x0fu8),
{
}

/// The d-pad nibble: 0 to 7 are Up, UpRight, Right, DownRight, Down, DownLeft,
/// Left and UpLeft (clockwise from Up); every value from 8 on is Neutral.
pub proof fn lemma_dpad_directions(nibble: u8)
    ensures
        dpad_of(0) == Dpad::Up,
        dpad_of(1) == Dpad::UpRight,
        dpad_of(2) == Dpad::Right,
        dpad_of(3) == Dpad::DownRight,
        dpad_of(4) == Dpad::Down,
        dpad_of(5) == Dpad::DownLeft,
        dpad_of(6) == Dpad::Left,
        dpad_of(7) == Dpad::UpLeft,
        nibble >= 8 ==> dpad_of(nibble) == Dpad::Neutral,
{
}

/// The pressed names of a table keep the table's order: they are a subsequence
/// of the table's names.
pub proof fn lemma_pressed_in_subsequence(table: Seq<(bool, Seq<char>)>)
    ensures
        is_subsequence(pressed_in(table), table.map_values(|e: (bool, Seq<char>)| e.1)),
    decreases table.len(),
{
    if table.len() > 0 {
        let init = table.drop_last();
        lemma_pressed_in_subsequence(init);
        let names = table.map_values(|e: (bool, Seq<char>)| e.1);
        let init_names = init.map_values(|e: (bool, Seq<char>)| e.1);
        assert(names.drop_last() =~= init_names);
        assert(init_names.push(names.last()) =~= names);
        let rest = pressed_in(init);
        if table.last().0 {
            assert(rest.push(table.last().1).drop_last() =~= rest);
        } else {
            lemma_subsequence_push(rest, init_names, names.last());
        }
    }
}

proof fn lemma_name_listed(buttons: Buttons, k: int, flag: bool, name: Seq<char>)
    requires
        0 <= k < 17,
        buttons.button_table()[k] == (flag, name),
    ensures
        buttons.pressed_names().contains(name) <==> flag,
{
    lemma_pressed_lists_exactly_the_pressed_buttons(buttons, k);
}

proof fn lemma_table_entries(b: Buttons)
    ensures
        b.button_table().len() == 17,
        b.button_table()[0] == (b.a, "A"@),
        b.button_table()[1] == (b.b, "B"@),
        b.button_table()[2] == (b.x, "X"@),
        b.button_table()[3] == (b.y, "Y"@),
        b.button_table()[4] == (b.lb, "LB"@),
        b.button_table()[5] == (b.rb, "RB"@),
        b.button_table()[6] == (b.lt_digital, "LT"@),
        b.button_table()[7] == (b.rt_digital, "RT"@),
        b.button_table()[8] == (b.view, "View"@),
        b.button_table()[9] == (b.menu, "Menu"@),
        b.button_table()[10] == (b.ls, "LS"@),
        b.button_table()[11] == (b.rs, "RS"@),
        b.button_table()[12] == (b.home, "Home"@),
        b.button_table()[13] == (b.share, "Share"@),
        b.button_table()[14] == (b.l4, "L4"@),
        b.button_table()[15] == (b.r4, "R4"@),
        b.button_table()[16] == (b.m, "M"@),
{
}

/// Each face and shoulder name is listed exactly when its own button is pressed.
pub proof fn lemma_pressed_names_by_field(buttons: Buttons)
    ensures
        buttons.pressed_names().contains("A"@) <==> buttons.a,
        buttons.pressed_names().contains("B"@) <==> buttons.b,
        buttons.pressed_names().contains("X"@) <==> buttons.x,
        buttons.pressed_names().contains("Y"@) <==> buttons.y,
        buttons.pressed_names().contains("LB"@) <==> buttons.lb,
        buttons.pressed_names().contains("RB"@) <==> buttons.rb,
        buttons.pressed_names().contains("LT"@) <==> buttons.lt_digital,
        buttons.pressed_names().contains("RT"@) <==> buttons.rt_digital,
{
    let b = buttons;
    lemma_table_entries(b);
    assert(b.pressed_names().contains("A"@) <==> b.a) by {
        lemma_name_listed(b, 0, b.a, "A"@);
    }
    assert(b.pressed_names().contains("B"@) <==> b.b) by {
        lemma_name_listed(b, 1, b.b, "B"@);
    }
    assert(b.pressed_names().contains("X"@) <==> b.x) by {
        lemma_name_listed(b, 2, b.x, "X"@);
    }
    assert(b.pressed_names().contains("Y"@) <==> b.y) by {
        lemma_name_listed(b, 3, b.y, "Y"@);
    }
    assert(b.pressed_names().contains("LB"@) <==> b.lb) by {
        lemma_name_listed(b, 4, b.lb, "LB"@);
    }
    assert(b.pressed_names().contains("RB"@) <==> b.rb) by {
        lemma_name_listed(b, 5, b.rb, "RB"@);
    }
    assert(b.pressed_names().contains("LT"@) <==> b.lt_digital) by {
        lemma_name_listed(b, 6, b.lt_digital, "LT"@);
    }
    assert(b.pressed_names().contains("RT"@) <==> b.rt_digital) by {
        lemma_name_listed(b, 7, b.rt_digital, "RT"@);
    }
}

/// Each name of the other buttons is listed exactly when its own button is pressed.
pub proof fn lemma_pressed_names_by_field_rest(buttons: Buttons)
    ensures
        buttons.pressed_names().contains("View"@) <==> buttons.view,
        buttons.pressed_names().contains("Menu"@) <==> buttons.menu,
        buttons.pressed_names().contains("LS"@) <==> buttons.ls,
        buttons.pressed_names().contains("RS"@) <==> buttons.rs,
        buttons.pressed_names().contains("Home"@) <==> buttons.home,
        buttons.pressed_names().contains("Share"@) <==> buttons.share,
        buttons.pressed_names().contains("L4"@) <==> buttons.l4,
        buttons.pressed_names().contains("R4"@) <==> buttons.r4,
        buttons.pressed_names().contains("M"@) <==> buttons.m,
{
    let b = buttons;
    lemma_table_entries(b);
    assert(b.pressed_names().contains("View"@) <==> b.view) by {
        lemma_name_listed(b, 8, b.view, "View"@);
    }
    assert(b.pressed_names().contains("Menu"@) <==> b.menu) by {
        lemma_name_listed(b, 9, b.menu, "Menu"@);
    }
    assert(b.pressed_names().contains("LS"@) <==> b.ls) by {
        lemma_name_listed(b, 10, b.ls, "LS"@);
    }
    assert(b.pressed_names().contains("RS"@) <==> b.rs) by {
        lemma_name_listed(b, 11, b.rs, "RS"@);
    }
    assert(b.pressed_names().contains("Home"@) <==> b.home) by {
        lemma_name_listed(b, 12, b.home, "Home"@);
    }
    assert(b.pressed_names().contains("Share"@) <==> b.share) by {
        lemma_name_listed(b, 13, b.share, "Share"@);
    }
    assert(b.pressed_names().contains("L4"@) <==> b.l4) by {
        lemma_name_listed(b, 14, b.l4, "L4"@);
    }
    assert(b.pressed_names().contains("R4"@) <==> b.r4) by {
        lemma_name_listed(b, 15, b.r4, "R4"@);
    }
    assert(b.pressed_names().contains("M"@) <==> b.m) by {
        lemma_name_listed(b, 16, b.m, "M"@);
    }
}

/// The names come in the fixed order
/// A B X Y LB RB LT RT View Menu LS RS Home Share L4 R4 M.
pub proof fn lemma_pressed_names_in_fixed_order(buttons: Buttons)
    ensures
        is_subsequence(
            buttons.pressed_names(),
            seq![
                "A"@,
                "B"@,
                "X"@,
                "Y"@,
                "LB"@,
                "RB"@,
                "LT"@,
                "RT"@,
                "View"@,
                "Menu"@,
                "LS"@,
                "RS"@,
                "Home"@,
                "Share"@,
                "L4"@,
                "R4"@,
                "M"@,
            ],
        ),
{
    lemma_pressed_in_subsequence(buttons.button_table());
    assert(buttons.button_table().map_values(|e: (bool, Seq<char>)| e.1) =~= button_names());
}

} // verus!
