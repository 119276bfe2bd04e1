//! The text that the command-line tools print: battery lines, input lines,
//! hex dumps of raw reports and the device banner.

use vstd::prelude::*;

use crate::protocol::{button_names, lemma_pressed_in_contains, lemma_pressed_names_by_field, lemma_pressed_names_by_field_rest, Buttons, Dpad, Input, Status};

verus! {

/// The digit characters of bases up to sixteen, lower case.
pub open spec fn digit_chars() -> Seq<char> {
    seq!['0', '1', '2', '3', '4', '5', '6', '7', '8', '9', 'a', 'b', 'c', 'd', 'e', 'f']
}

/// The character of digit `d` (below sixteen).
pub open spec fn digit_char(d: int) -> char {
    digit_chars()[d]
}

/// The one-character text of digit `d`.
fn digit_str(d: u8) -> (s: &'static str)
    requires
        d < 16,
    ensures
        s@ == seq![digit_char(d as int)],
{
    match d {
        0 => {
            proof {
                reveal_strlit("0");
            }
            "0"
        },
        1 => {
            proof {
                reveal_strlit("1");
            }
            "1"
        },
        2 => {
            proof {
                reveal_strlit("2");
            }
            "2"
        },
        3 => {
            proof {
                reveal_strlit("3");
            }
            "3"
        },
        4 => {
            proof {
                reveal_strlit("4");
            }
            "4"
        },
        5 => {
            proof {
                reveal_strlit("5");
            }
            "5"
        },
        6 => {
            proof {
                reveal_strlit("6");
            }
            "6"
        },
        7 => {
            proof {
                reveal_strlit("7");
            }
            "7"
        },
        8 => {
            proof {
                reveal_strlit("8");
            }
            "8"
        },
        9 => {
            proof {
                reveal_strlit("9");
            }
            "9"
        },
        10 => {
            proof {
                reveal_strlit("a");
            }
            "a"
        },
        11 => {
            proof {
                reveal_strlit("b");
            }
            "b"
        },
        12 => {
            proof {
                reveal_strlit("c");
            }
            "c"
        },
        13 => {
            proof {
                reveal_strlit("d");
            }
            "d"
        },
        14 => {
            proof {
                reveal_strlit("e");
            }
            "e"
        },
        _ => {
            proof {
                reveal_strlit("f");
            }
            "f"
        },
    }
}

/// The decimal text of `n`, without leading zeros.
pub open spec fn decimal_chars(n: nat) -> Seq<char>
    decreases n,
{
    if n < 10 {
        seq![digit_char(n as int)]
    } else {
        decimal_chars(n / 10).push(digit_char((n % 10) as int))
    }
}

/// Appends the decimal text of `n` to `out`.
pub fn push_decimal(out: &mut String, n: u64)
    ensures
        final(out)@ == old(out)@ + decimal_chars(n as nat),
    decreases n,
{
    if n >= 10 {
        push_decimal(out, n / 10);
    }
    let d: u8 = (n % 10) as u8;
    out.append(digit_str(d));
    assert(out@ =~= old(out)@ + decimal_chars(n as nat));
}

/// The decimal text of `n`.
pub fn decimal(n: u64) -> (text: String)
    ensures
        text@ == decimal_chars(n as nat),
{
    let mut text = String::new();
    push_decimal(&mut text, n);
    assert(text@ =~= decimal_chars(n as nat));
    text
}

/// The decimal text of `n`, right-aligned in a field of three characters
/// (`{:3}`); every `u8` fits.
pub open spec fn pad3_chars(n: u8) -> Seq<char> {
    let digits = decimal_chars(n as nat);
    Seq::new((3 - digits.len()) as nat, |i: int| ' ') + digits
}

/// Decimal texts have one digit below 10, two below 100 and three below 1000.
pub proof fn lemma_decimal_len(n: nat)
    ensures
        n < 10 ==> decimal_chars(n).len() == 1,
        10 <= n < 100 ==> decimal_chars(n).len() == 2,
        100 <= n < 1000 ==> decimal_chars(n).len() == 3,
{
    reveal_with_fuel(decimal_chars, 3);
    if 100 <= n < 1000 {
        assert(10 <= n / 10 < 100);
        assert((n / 10) / 10 < 10);
    }
}

/// Appends the decimal text of `n`, right-aligned in three characters.
pub fn push_pad3(out: &mut String, n: u8)
    ensures
        final(out)@ == old(out)@ + pad3_chars(n),
{
    proof {
        lemma_decimal_len(n as nat);
        reveal_strlit("  ");
        reveal_strlit(" ");
    }
    if n < 10 {
        out.append("  ");
    } else if n < 100 {
        out.append(" ");
    }
    push_decimal(out, n as u64);
    assert(out@ =~= old(out)@ + pad3_chars(n));
}

/// Two lower-case hex digits of a byte (`{:02x}`).
pub open spec fn hex2_chars(b: u8) -> Seq<char> {
    seq![digit_char(b as int / 16), digit_char(b as int % 16)]
}

/// Four lower-case hex digits of a 16-bit value (`{:04x}`).
pub open spec fn hex4_chars(v: u16) -> Seq<char> {
    seq![
        digit_char(v as int / 4096),
        digit_char(v as int / 256 % 16),
        digit_char(v as int / 16 % 16),
        digit_char(v as int % 16),
    ]
}

/// Each byte as two hex digits and a space, with a line break after every
/// sixteenth byte.
pub open spec fn dump_lines(data: Seq<u8>) -> Seq<char>
    decreases data.len(),
{
    if data.len() == 0 {
        Seq::empty()
    } else {
        dump_lines(data.drop_last()) + hex2_chars(data.last()) + seq![' '] + if data.len() % 16
            == 0 {
            seq!['\n']
        } else {
            Seq::empty()
        }
    }
}

/// The hex dump of a raw report: `dump_lines`, followed by one more line break
/// when the length is a multiple of sixteen (an empty report included).
pub open spec fn dump_chars(data: Seq<u8>) -> Seq<char> {
    dump_lines(data) + if data.len() % 16 == 0 {
        seq!['\n']
    } else {
        Seq::empty()
    }
}

/// The hex dump of a raw report, as it is printed.
pub fn dump_text(data: &[u8]) -> (text: String)
    ensures
        text@ == dump_chars(data@),
{
    proof {
        reveal_strlit(" ");
        reveal_strlit("\n");
    }
    let mut text = String::new();
    let mut i: usize = 0;
    while i < data.len()
        invariant
            i <= data@.len(),
            text@ == dump_lines(data@.take(i as int)),
            " "@ == seq![' '],
            "\n"@ == seq!['\n'],
        decreases data@.len() - i,
    {
        let b = data[i];
        assert(data@.take(i + 1).drop_last() =~= data@.take(i as int));
        text.append(digit_str(b / 16));
        text.append(digit_str(b % 16));
        text.append(" ");
        if (i + 1) % 16 == 0 {
            text.append("\n");
        }
        i = i + 1;
        assert(text@ =~= dump_lines(data@.take(i as int)));
    }
    assert(data@.take(i as int) =~= data@);
    if data.len() % 16 == 0 {
        text.append("\n");
    }
    assert(text@ =~= dump_chars(data@));
    text
}

/// The header printed before the dump of a raw report of `n` bytes.
pub open spec fn rx_header_chars(n: nat) -> Seq<char> {
    "RX "@ + decimal_chars(n) + " bytes:"@
}

/// `RX <n> bytes:`
pub fn rx_header(n: usize) -> (text: String)
    ensures
        text@ == rx_header_chars(n as nat),
{
    let mut text = String::new();
    text.append("RX ");
    push_decimal(&mut text, n as u64);
    text.append(" bytes:");
    assert(text@ =~= rx_header_chars(n as nat));
    text
}

/// The battery line: in watch mode `Battery: <n>%` with ` (charging)` appended
/// while charging; in single-shot mode `<n>%` with ` charging` appended.
pub open spec fn battery_line_chars(status: Status, watch: bool) -> Seq<char> {
    let percent = decimal_chars(status.battery as nat);
    if watch {
        if status.charging {
            "Battery: "@ + percent + "% (charging)"@
        } else {
            "Battery: "@ + percent + "%"@
        }
    } else {
        if status.charging {
            percent + "% charging"@
        } else {
            percent + "%"@
        }
    }
}

/// The line printed for a battery status.
pub fn battery_line(status: Status, watch: bool) -> (text: String)
    ensures
        text@ == battery_line_chars(status, watch),
{
    let mut text = String::new();
    if watch {
        text.append("Battery: ");
    }
    push_decimal(&mut text, status.battery as u64);
    if watch {
        if status.charging {
            text.append("% (charging)");
        } else {
            text.append("%");
        }
    } else {
        if status.charging {
            text.append("% charging");
        } else {
            text.append("%");
        }
    }
    assert(text@ =~= battery_line_chars(status, watch));
    text
}

/// The name of a d-pad direction, as `{:?}` prints it.
pub open spec fn dpad_name(dpad: Dpad) -> Seq<char> {
    match dpad {
        Dpad::Neutral => "Neutral"@,
        Dpad::Up => "Up"@,
        Dpad::UpRight => "UpRight"@,
        Dpad::Right => "Right"@,
        Dpad::DownRight => "DownRight"@,
        Dpad::Down => "Down"@,
        Dpad::DownLeft => "DownLeft"@,
        Dpad::Left => "Left"@,
        Dpad::UpLeft => "UpLeft"@,
    }
}

/// The name of a d-pad direction.
pub fn dpad_text(dpad: Dpad) -> (name: &'static str)
    ensures
        name@ == dpad_name(dpad),
{
    match dpad {
        Dpad::Neutral => "Neutral",
        Dpad::Up => "Up",
        Dpad::UpRight => "UpRight",
        Dpad::Right => "Right",
        Dpad::DownRight => "DownRight",
        Dpad::Down => "Down",
        Dpad::DownLeft => "DownLeft",
        Dpad::Left => "Left",
        Dpad::UpLeft => "UpLeft",
    }
}

/// The texts of `parts`, with `sep` between each two.
pub open spec fn joined(parts: Seq<Seq<char>>, sep: Seq<char>) -> Seq<char>
    decreases parts.len(),
{
    if parts.len() == 0 {
        Seq::empty()
    } else if parts.len() == 1 {
        parts[0]
    } else {
        joined(parts.drop_last(), sep) + sep + parts.last()
    }
}

/// The pressed buttons separated by spaces, or `-` when none is pressed.
pub open spec fn pressed_chars(buttons: Buttons) -> Seq<char> {
    if buttons.pressed_names().len() == 0 {
        "-"@
    } else {
        joined(buttons.pressed_names(), " "@)
    }
}

/// The pressed buttons separated by spaces, or `-` when none is pressed.
pub fn pressed_text(buttons: &Buttons) -> (text: String)
    ensures
        text@ == pressed_chars(*buttons),
{
    let names = buttons.pressed();
    let ghost parts = buttons.pressed_names();
    let mut text = String::new();
    if names.len() == 0 {
        text.append("-");
        assert(text@ =~= "-"@);
        return text;
    }
    assert(names@.len() == parts.len());
    assert(forall|k: int| 0 <= k < parts.len() ==> #[trigger] parts[k] == names@[k]@);
    text.append(names[0]);
    assert(parts.take(1).len() == 1);
    assert(joined(parts.take(1), " "@) == parts.take(1)[0]);
    assert(text@ =~= joined(parts.take(1), " "@));
    let mut i: usize = 1;
    while i < names.len()
        invariant
            1 <= i <= names@.len(),
            names@.len() == parts.len(),
            forall|k: int| 0 <= k < parts.len() ==> #[trigger] parts[k] == names@[k]@,
            text@ == joined(parts.take(i as int), " "@),
        decreases names@.len() - i,
    {
        assert(parts.take(i + 1).drop_last() =~= parts.take(i as int));
        assert(parts.take(i + 1).last() == parts[i as int]);
        text.append(" ");
        text.append(names[i]);
        i = i + 1;
        assert(text@ =~= joined(parts.take(i as int), " "@));
    }
    assert(parts.take(i as int) =~= parts);
    text
}

/// The line printed for the state of the controls:
/// `L(lx,ly) R(rx,ry) LT=lt RT=rt dpad=<direction> | <pressed buttons>`, each
/// number right-aligned in three characters.
pub open spec fn input_line_chars(input: Input) -> Seq<char> {
    "L("@ + pad3_chars(input.lx) + ","@ + pad3_chars(input.ly) + ") R("@ + pad3_chars(input.rx)
        + ","@ + pad3_chars(input.ry) + ") LT="@ + pad3_chars(input.lt) + " RT="@ + pad3_chars(
        input.rt,
    ) + " dpad="@ + dpad_name(input.buttons.dpad) + " | "@ + pressed_chars(input.buttons)
}

/// The line printed for the state of the controls.
pub fn input_line(input: &Input) -> (text: String)
    ensures
        text@ == input_line_chars(*input),
{
    let mut text = String::new();
    text.append("L(");
    assert(text@ =~= "L("@);
    push_pad3(&mut text, input.lx);
    text.append(",");
    push_pad3(&mut text, input.ly);
    text.append(") R(");
    push_pad3(&mut text, input.rx);
    text.append(",");
    push_pad3(&mut text, input.ry);
    text.append(") LT=");
    push_pad3(&mut text, input.lt);
    text.append(" RT=");
    push_pad3(&mut text, input.rt);
    text.append(" dpad=");
    text.append(dpad_text(input.buttons.dpad));
    text.append(" | ");
    let pressed = pressed_text(&input.buttons);
    text.append(pressed.as_str());
    text
}

/// The banner printed for the device found:
/// `Found: <product id in four hex digits> (<product name or "unknown">)`.
pub open spec fn device_banner_chars(product_id: u16, product_name: Option<Seq<char>>) -> Seq<
    char,
> {
    let name = match product_name {
        Some(name) => name,
        None => "unknown"@,
    };
    "Found: "@ + hex4_chars(product_id) + " ("@ + name + ")"@
}

/// The banner printed for the device found.
pub fn device_banner(product_id: u16, product_name: Option<&str>) -> (text: String)
    ensures
        text@ == device_banner_chars(
            product_id,
            match product_name {
                Some(name) => Some(name@),
                None => None,
            },
        ),
{
    let mut text = String::new();
    text.append("Found: ");
    text.append(digit_str((product_id / 4096) as u8));
    text.append(digit_str((product_id / 256 % 16) as u8));
    text.append(digit_str((product_id / 16 % 16) as u8));
    text.append(digit_str((product_id % 16) as u8));
    text.append(" (");
    match product_name {
        Some(name) => text.append(name),
        None => text.append("unknown"),
    }
    text.append(")");
    let ghost view_name = match product_name {
        Some(name) => Some(name@),
        None => None,
    };
    assert(text@ =~= device_banner_chars(product_id, view_name));
    text
}

/// Every number of an input line takes exactly three characters, so the columns
/// of successive lines stay aligned.
pub proof fn lemma_pad3_width(n: u8)
    ensures
        pad3_chars(n).len() == 3,
{
    lemma_decimal_len(n as nat);
}

/// A hex dump holds three characters per byte, a line break after every sixteenth
/// byte, and one more line break when the length is a multiple of sixteen.
pub proof fn lemma_dump_length(data: Seq<u8>)
    ensures
        dump_lines(data).len() == 3 * data.len() + data.len() / 16,
        dump_chars(data).len() == 3 * data.len() + data.len() / 16 + if data.len() % 16 == 0 {
            1int
        } else {
            0int
        },
    decreases data.len(),
{
    if data.len() > 0 {
        lemma_dump_length(data.drop_last());
        let n = data.len() as int;
        assert((n - 1) / 16 + (if n % 16 == 0 { 1int } else { 0int }) == n / 16) by (nonlinear_arith)
            requires n > 0;
    }
}

/// The value of a digit character, `0`-`9` then `a`-`f`; -1 for any other
/// character.
pub open spec fn digit_value(c: char) -> int {
    if c == '0' {
        0
    } else if c == '1' {
        1
    } else if c == '2' {
        2
    } else if c == '3' {
        3
    } else if c == '4' {
        4
    } else if c == '5' {
        5
    } else if c == '6' {
        6
    } else if c == '7' {
        7
    } else if c == '8' {
        8
    } else if c == '9' {
        9
    } else if c == 'a' {
        10
    } else if c == 'b' {
        11
    } else if c == 'c' {
        12
    } else if c == 'd' {
        13
    } else if c == 'e' {
        14
    } else if c == 'f' {
        15
    } else {
        -1
    }
}

/// The number that a text of decimal digits denotes.
pub open spec fn decimal_value(s: Seq<char>) -> int
    decreases s.len(),
{
    if s.len() == 0 {
        0
    } else {
        decimal_value(s.drop_last()) * 10 + digit_value(s.last())
    }
}

/// The digit character of `d` has the value `d`.
pub proof fn lemma_digit_char_value(d: int)
    requires
        0 <= d < 16,
    ensures
        digit_value(digit_char(d)) == d,
{
    assert(digit_chars()[0] == '0');
    if d == 0 {
    } else if d == 1 {
    } else if d == 2 {
    } else if d == 3 {
    } else if d == 4 {
    } else if d == 5 {
    } else if d == 6 {
    } else if d == 7 {
    } else if d == 8 {
    } else if d == 9 {
    } else if d == 10 {
    } else if d == 11 {
    } else if d == 12 {
    } else if d == 13 {
    } else if d == 14 {
    } else {
    }
}

/// The decimal text of `n` is made of decimal digits, denotes `n`, and has no
/// leading zero.
pub proof fn lemma_decimal_value(n: nat)
    ensures
        decimal_value(decimal_chars(n)) == n,
        decimal_chars(n).len() >= 1,
        forall|i: int|
            0 <= i < decimal_chars(n).len() ==> 0 <= #[trigger] digit_value(decimal_chars(n)[i])
                < 10,
        decimal_chars(n)[0] == '0' ==> n == 0,
    decreases n,
{
    lemma_digit_char_value((n % 10) as int);
    if n < 10 {
        let s = decimal_chars(n);
        assert(s.drop_last().len() == 0);
        assert(decimal_value(s.drop_last()) == 0);
        assert(s.last() == digit_char(n as int));
    } else {
        let prefix = decimal_chars(n / 10);
        lemma_decimal_value(n / 10);
        let s = decimal_chars(n);
        assert(s == prefix.push(digit_char((n % 10) as int)));
        assert(s.drop_last() =~= prefix);
        assert(s.last() == digit_char((n % 10) as int));
        assert(decimal_value(s) == decimal_value(prefix) * 10 + (n % 10));
        assert forall|i: int| 0 <= i < s.len() implies 0 <= #[trigger] digit_value(s[i]) < 10 by {
            if i < prefix.len() {
                assert(s[i] == prefix[i]);
            }
        }
        assert(s[0] == prefix[0]);
        if s[0] == '0' {
            assert(digit_value(prefix[0]) == 0);
        }
    }
}

/// The two hex digits of a byte are hex digits and denote the byte.
pub proof fn lemma_hex2_value(b: u8)
    ensures
        hex2_chars(b).len() == 2,
        0 <= digit_value(hex2_chars(b)[0]) < 16,
        0 <= digit_value(hex2_chars(b)[1]) < 16,
        digit_value(hex2_chars(b)[0]) * 16 + digit_value(hex2_chars(b)[1]) == b,
{
    lemma_digit_char_value(b as int / 16);
    lemma_digit_char_value(b as int % 16);
}

/// The four hex digits of a 16-bit value are hex digits and denote the value.
pub proof fn lemma_hex4_value(v: u16)
    ensures
        hex4_chars(v).len() == 4,
        forall|i: int| 0 <= i < 4 ==> 0 <= #[trigger] digit_value(hex4_chars(v)[i]) < 16,
        digit_value(hex4_chars(v)[0]) * 4096 + digit_value(hex4_chars(v)[1]) * 256
            + digit_value(hex4_chars(v)[2]) * 16 + digit_value(hex4_chars(v)[3]) == v,
{
    lemma_digit_char_value(v as int / 4096);
    lemma_digit_char_value(v as int / 256 % 16);
    lemma_digit_char_value(v as int / 16 % 16);
    lemma_digit_char_value(v as int % 16);
    let h = hex4_chars(v);
    assert forall|i: int| 0 <= i < 4 implies 0 <= #[trigger] digit_value(h[i]) < 16 by {}
}

/// The battery lines, case by case: in single-shot mode the percentage in
/// decimal, `%`, and ` charging` while charging; in watch mode the same behind
/// `Battery: `, with the charging mark in parentheses.
pub proof fn lemma_battery_line_cases(status: Status)
    ensures
        battery_line_chars(status, false) == decimal_chars(status.battery as nat) + if status.charging {
            "% charging"@
        } else {
            "%"@
        },
        battery_line_chars(status, true) == "Battery: "@ + decimal_chars(status.battery as nat)
            + if status.charging {
            "% (charging)"@
        } else {
            "%"@
        },
{
}

/// Where each byte stands in a hex dump: byte `i` is written at position
/// `3 * i + i / 16` as two hex digits and a space, followed by a line break when
/// it closes a group of sixteen.
pub proof fn lemma_dump_positions(data: Seq<u8>, i: int)
    requires
        0 <= i < data.len(),
    ensures
        dump_chars(data)[3 * i + i / 16] == hex2_chars(data[i])[0],
        dump_chars(data)[3 * i + i / 16 + 1] == hex2_chars(data[i])[1],
        dump_chars(data)[3 * i + i / 16 + 2] == ' ',
        (i + 1) % 16 == 0 ==> dump_chars(data)[3 * i + i / 16 + 3] == '\n',
{
    lemma_dump_lines_positions(data, i);
    lemma_dump_length(data);
    let lines = dump_lines(data);
    let tail = if data.len() % 16 == 0 {
        seq!['\n']
    } else {
        Seq::<char>::empty()
    };
    assert(dump_chars(data) == lines + tail);
    assert((i + 1) % 16 == 0 ==> 3 * i + i / 16 + 3 < lines.len()) by (nonlinear_arith)
        requires
            0 <= i < data.len(),
            lines.len() == 3 * data.len() + data.len() / 16,
    ;
}

proof fn lemma_dump_lines_positions(data: Seq<u8>, i: int)
    requires
        0 <= i < data.len(),
    ensures
        3 * i + i / 16 + 2 < dump_lines(data).len(),
        dump_lines(data)[3 * i + i / 16] == hex2_chars(data[i])[0],
        dump_lines(data)[3 * i + i / 16 + 1] == hex2_chars(data[i])[1],
        dump_lines(data)[3 * i + i / 16 + 2] == ' ',
        (i + 1) % 16 == 0 ==> 3 * i + i / 16 + 3 < dump_lines(data).len() && dump_lines(data)[3 * i
            + i / 16 + 3] == '\n',
    decreases data.len(),
{
    let init = data.drop_last();
    let prefix = dump_lines(init);
    let nl = if data.len() % 16 == 0 {
        seq!['\n']
    } else {
        Seq::<char>::empty()
    };
    assert(dump_lines(data) == prefix + hex2_chars(data.last()) + seq![' '] + nl);
    lemma_dump_length(init);
    lemma_dump_length(data);
    let p = 3 * i + i / 16;
    if i < data.len() - 1 {
        lemma_dump_lines_positions(init, i);
        assert(init[i] == data[i]);
        assert(dump_lines(data)[p] == prefix[p]);
        assert(dump_lines(data)[p + 1] == prefix[p + 1]);
        assert(dump_lines(data)[p + 2] == prefix[p + 2]);
        if (i + 1) % 16 == 0 {
            assert(dump_lines(data)[p + 3] == prefix[p + 3]);
        }
    } else {
        assert(prefix.len() == p);
        assert(data.last() == data[i]);
    }
}

/// The columns of an input line: the sticks lx, ly at 2 and 6, rx, ry at 13 and
/// 17, the analog triggers LT and RT at 25 and 32, each three characters wide;
/// the d-pad name from 41, then ` | ` and the pressed buttons.
pub proof fn lemma_input_line_columns(input: Input)
    ensures
        input_line_chars(input).subrange(2, 5) == pad3_chars(input.lx),
        input_line_chars(input).subrange(6, 9) == pad3_chars(input.ly),
        input_line_chars(input).subrange(13, 16) == pad3_chars(input.rx),
        input_line_chars(input).subrange(17, 20) == pad3_chars(input.ry),
        input_line_chars(input).subrange(25, 28) == pad3_chars(input.lt),
        input_line_chars(input).subrange(32, 35) == pad3_chars(input.rt),
        input_line_chars(input).subrange(41, 41 + dpad_name(input.buttons.dpad).len() as int)
            == dpad_name(input.buttons.dpad),
        input_line_chars(input).skip(44 + dpad_name(input.buttons.dpad).len() as int) == pressed_chars(
            input.buttons,
        ),
{
    reveal_strlit("L(");
    reveal_strlit(",");
    reveal_strlit(") R(");
    reveal_strlit(") LT=");
    reveal_strlit(" RT=");
    reveal_strlit(" dpad=");
    reveal_strlit(" | ");
    lemma_pad3_width(input.lx);
    lemma_pad3_width(input.ly);
    lemma_pad3_width(input.rx);
    lemma_pad3_width(input.ry);
    lemma_pad3_width(input.lt);
    lemma_pad3_width(input.rt);
    let line = input_line_chars(input);
    let d = dpad_name(input.buttons.dpad);
    assert(line.subrange(2, 5) =~= pad3_chars(input.lx));
    assert(line.subrange(6, 9) =~= pad3_chars(input.ly));
    assert(line.subrange(13, 16) =~= pad3_chars(input.rx));
    assert(line.subrange(17, 20) =~= pad3_chars(input.ry));
    assert(line.subrange(25, 28) =~= pad3_chars(input.lt));
    assert(line.subrange(32, 35) =~= pad3_chars(input.rt));
    assert(line.subrange(41, 41 + d.len() as int) =~= d);
    assert(line.skip(44 + d.len() as int) =~= pressed_chars(input.buttons));
}

/// The d-pad names are those that `{:?}` prints for the directions.
pub proof fn lemma_dpad_names()
    ensures
        dpad_name(Dpad::Neutral) == "Neutral"@,
        dpad_name(Dpad::Up) == "Up"@,
        dpad_name(Dpad::UpRight) == "UpRight"@,
        dpad_name(Dpad::Right) == "Right"@,
        dpad_name(Dpad::DownRight) == "DownRight"@,
        dpad_name(Dpad::Down) == "Down"@,
        dpad_name(Dpad::DownLeft) == "DownLeft"@,
        dpad_name(Dpad::Left) == "Left"@,
        dpad_name(Dpad::UpLeft) == "UpLeft"@,
{
}

/// The button column is `-` exactly when no button is pressed.
pub proof fn lemma_dash_when_nothing_pressed(buttons: Buttons)
    ensures
        (pressed_chars(buttons) == "-"@) <==> !(buttons.a || buttons.b || buttons.x || buttons.y
            || buttons.lb || buttons.rb || buttons.lt_digital || buttons.rt_digital || buttons.view
            || buttons.menu || buttons.ls || buttons.rs || buttons.home || buttons.share
            || buttons.l4 || buttons.r4 || buttons.m),
{
    let names = buttons.pressed_names();
    lemma_pressed_names_by_field(buttons);
    lemma_pressed_names_by_field_rest(buttons);
    reveal_strlit("-");
    if names.len() > 0 {
        let table = buttons.button_table();
        assert(names.contains(names[0]));
        lemma_pressed_in_contains(table, names[0]);
        let k = choose|k: int| 0 <= k < table.len() && #[trigger] table[k] == (true, names[0]);
        assert(table[k].0);
        assert(buttons.flags()[k]);
        lemma_button_names_start_with_letters();
        assert(names[0] == button_names()[k]);
        lemma_joined_not_dash(names);
    }
}

proof fn lemma_joined_first(names: Seq<Seq<char>>, sep: Seq<char>)
    requires
        names.len() > 0,
        names[0].len() > 0,
    ensures
        joined(names, sep).len() > 0,
        joined(names, sep)[0] == names[0][0],
    decreases names.len(),
{
    if names.len() > 1 {
        let init = names.drop_last();
        assert(init[0] == names[0]);
        lemma_joined_first(init, sep);
    }
}

proof fn lemma_joined_not_dash(names: Seq<Seq<char>>)
    requires
        names.len() > 0,
        names[0].len() > 0,
        names[0][0] != '-',
    ensures
        joined(names, " "@) != "-"@,
{
    reveal_strlit("-");
    lemma_joined_first(names, " "@);
    if joined(names, " "@) == "-"@ {
        assert(joined(names, " "@)[0] == '-');
    }
}

proof fn lemma_button_names_start_with_letters()
    ensures
        forall|j: int|
            0 <= j < button_names().len() ==> (#[trigger] button_names()[j]).len() > 0
                && button_names()[j][0] != '-',
{
    reveal_strlit("A");
    reveal_strlit("B");
    reveal_strlit("X");
    reveal_strlit("Y");
    reveal_strlit("LB");
    reveal_strlit("RB");
    reveal_strlit("LT");
    reveal_strlit("RT");
    reveal_strlit("View");
    reveal_strlit("Menu");
    reveal_strlit("LS");
    reveal_strlit("RS");
    reveal_strlit("Home");
    reveal_strlit("Share");
    reveal_strlit("L4");
    reveal_strlit("R4");
    reveal_strlit("M");
}

/// The parts of the device banner: the product ID's four hex digits at 7 and the
/// product name, or `unknown`, from 13.
pub proof fn lemma_device_banner_parts(product_id: u16, product_name: Option<Seq<char>>)
    ensures
        device_banner_chars(product_id, product_name).subrange(7, 11) == hex4_chars(product_id),
        product_name matches Some(name) ==> device_banner_chars(product_id, product_name).subrange(
            13,
            13 + name.len() as int,
        ) == name,
        product_name is None ==> device_banner_chars(product_id, product_name).subrange(13, 20)
            == "unknown"@,
{
    reveal_strlit("Found: ");
    reveal_strlit(" (");
    reveal_strlit("unknown");
    let t = device_banner_chars(product_id, product_name);
    assert(t.subrange(7, 11) =~= hex4_chars(product_id));
    match product_name {
        Some(name) => {
            assert(t.subrange(13, 13 + name.len() as int) =~= name);
        },
        None => {
            assert(t.subrange(13, 20) =~= "unknown"@);
        },
    }
}

/// A padded number is right-aligned: spaces, then the decimal digits of the
/// number, three characters in all.
pub proof fn lemma_pad3_right_aligned(n: u8)
    ensures
        pad3_chars(n).len() == 3,
        pad3_chars(n).skip(3 - decimal_chars(n as nat).len()) == decimal_chars(n as nat),
        forall|i: int| 0 <= i < 3 - decimal_chars(n as nat).len() ==> #[trigger] pad3_chars(n)[i]
            == ' ',
{
    lemma_decimal_len(n as nat);
    let d = decimal_chars(n as nat);
    assert(pad3_chars(n).skip(3 - d.len()) =~= d);
}

/// The header of a raw dump: `RX `, the byte count in decimal, ` bytes:`.
pub proof fn lemma_rx_header_parts(n: nat)
    ensures
        rx_header_chars(n) == "RX "@ + decimal_chars(n) + " bytes:"@,
        rx_header_chars(n).subrange(3, 3 + decimal_chars(n).len() as int) == decimal_chars(n),
{
    reveal_strlit("RX ");
    assert(rx_header_chars(n).subrange(3, 3 + decimal_chars(n).len() as int) =~= decimal_chars(n));
}

} // verus!
