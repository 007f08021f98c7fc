//! The device state as text, one line per known value, for the tray and the
//! command line.

use vstd::prelude::*;
use vstd::string::{StrSliceExecFns, StringExecFns};

use crate::devices::event::{ChargingStatus, Color};
use crate::devices::state::DeviceState;

verus! {

pub open spec fn digit_char(d: nat) -> char {
    if d == 0 {
        '0'
    } else if d == 1 {
        '1'
    } else if d == 2 {
        '2'
    } else if d == 3 {
        '3'
    } else if d == 4 {
        '4'
    } else if d == 5 {
        '5'
    } else if d == 6 {
        '6'
    } else if d == 7 {
        '7'
    } else if d == 8 {
        '8'
    } else {
        '9'
    }
}

/// `n` in decimal digits.
pub open spec fn decimal(n: nat) -> Seq<char>
    decreases n,
{
    if n < 10 {
        seq![digit_char(n)]
    } else {
        decimal(n / 10).push(digit_char(n % 10))
    }
}

fn digit_str(d: u64) -> (r: &'static str)
    requires
        d < 10,
    ensures
        r@ == seq![digit_char(d as nat)],
{
    proof {
        reveal_strlit("0");
        reveal_strlit("1");
        reveal_strlit("2");
        reveal_strlit("3");
        reveal_strlit("4");
        reveal_strlit("5");
        reveal_strlit("6");
        reveal_strlit("7");
        reveal_strlit("8");
        reveal_strlit("9");
    }
    let r = if d == 0 {
        "0"
    } else if d == 1 {
        "1"
    } else if d == 2 {
        "2"
    } else if d == 3 {
        "3"
    } else if d == 4 {
        "4"
    } else if d == 5 {
        "5"
    } else if d == 6 {
        "6"
    } else if d == 7 {
        "7"
    } else if d == 8 {
        "8"
    } else {
        "9"
    };
    assert(r@ =~= seq![digit_char(d as nat)]);
    r
}

/// `n` written in decimal.
pub fn decimal_string(n: u64) -> (r: String)
    ensures
        r@ == decimal(n as nat),
    decreases n,
{
    if n < 10 {
        String::from_str(digit_str(n))
    } else {
        let mut s = decimal_string(n / 10);
        s.append(digit_str(n % 10));
        assert(s@ =~= decimal(n as nat));
        s
    }
}

pub open spec fn bool_text(b: bool) -> Seq<char> {
    if b {
        "true"@
    } else {
        "false"@
    }
}

pub open spec fn charging_text(c: ChargingStatus) -> Seq<char> {
    match c {
        ChargingStatus::NotCharging => "Not charging"@,
        ChargingStatus::Charging => "Charging"@,
        ChargingStatus::FullyCharged => "Fully charged"@,
        ChargingStatus::ChargeError => "Charging error!"@,
    }
}

pub open spec fn color_text(c: Color) -> Seq<char> {
    match c {
        Color::BlackBlack => "Black"@,
        Color::BlackRed => "Red"@,
        Color::UnknownColor(n) => "Unknown color "@ + decimal(n as nat),
    }
}

pub open spec fn u8_text(v: Option<u8>) -> Option<Seq<char>> {
    match v {
        Some(n) => Some(decimal(n as nat)),
        None => None,
    }
}

pub open spec fn bool_value(v: Option<bool>) -> Option<Seq<char>> {
    match v {
        Some(b) => Some(bool_text(b)),
        None => None,
    }
}

pub open spec fn charging_value(v: Option<ChargingStatus>) -> Option<Seq<char>> {
    match v {
        Some(c) => Some(charging_text(c)),
        None => None,
    }
}

pub open spec fn color_value(v: Option<Color>) -> Option<Seq<char>> {
    match v {
        Some(c) => Some(color_text(c)),
        None => None,
    }
}

/// A delay in seconds shown in whole minutes.
pub open spec fn minutes_value(v: Option<u64>) -> Option<Seq<char>> {
    match v {
        Some(secs) => Some(decimal((secs / 60) as nat)),
        None => None,
    }
}

/// `label` followed by spaces up to `width` characters.
pub open spec fn padded(label: Seq<char>, width: nat) -> Seq<char> {
    if label.len() < width {
        label + Seq::new((width - label.len()) as nat, |_i: int| ' ')
    } else {
        label
    }
}

/// The text so far with one more row: rows whose value is unknown are left
/// out, the others are separated by line breaks.
#[verifier::opaque]
pub open spec fn add_row(
    text: Seq<char>,
    label: Seq<char>,
    value: Option<Seq<char>>,
    unit: Seq<char>,
    read_only: bool,
    padding: nat,
    mark: bool,
) -> Seq<char> {
    match value {
        None => text,
        Some(v) => {
            let line = padded(label, padding) + " "@ + v + unit + if mark && read_only {
                " (read-only)"@
            } else {
                Seq::empty()
            };
            if text.len() == 0 {
                line
            } else {
                text + "\n"@ + line
            }
        },
    }
}

/// The state as text: one line per known value, labels padded to `padding`
/// characters, and, with `mark`, values the device cannot set marked read-only.
pub open spec fn state_text(s: DeviceState, padding: nat, mark: bool) -> Seq<char> {
    let c = s.capabilities;
    let t = Seq::<char>::empty();
    let t = add_row(t, "Battery level:"@, u8_text(s.battery_level), "%"@, false, padding, mark);
    let t = add_row(t, "Charging status:"@, charging_value(s.charging), ""@, false, padding, mark);
    let t = add_row(t, "Muted:"@, bool_value(s.muted), ""@, !c.can_set_mute, padding, mark);
    let t = add_row(t, "Mic connected:"@, bool_value(s.mic_connected), ""@, false, padding, mark);
    let t = add_row(t, "Automatic shutdown after:"@, minutes_value(s.automatic_shutdown_after), "min"@, !c.can_set_automatic_shutdown, padding, mark);
    let t = add_row(t, "Pairing info:"@, u8_text(s.pairing_info), ""@, false, padding, mark);
    let t = add_row(t, "Product color:"@, color_value(s.product_color), ""@, false, padding, mark);
    let t = add_row(t, "Side tone:"@, bool_value(s.side_tone_on), ""@, !c.can_set_side_tone, padding, mark);
    let t = add_row(t, "Side tone volume:"@, u8_text(s.side_tone_volume), ""@, !c.can_set_side_tone_volume, padding, mark);
    let t = add_row(t, "Surround sound:"@, bool_value(s.surround_sound), ""@, !c.can_set_surround_sound, padding, mark);
    let t = add_row(t, "Voice prompt:"@, bool_value(s.voice_prompt_on), ""@, !c.can_set_voice_prompt, padding, mark);
    let t = add_row(t, "Connected:"@, bool_value(s.connected), ""@, false, padding, mark);
    let t = add_row(t, "Playback muted:"@, bool_value(s.silent), ""@, !c.can_set_silent_mode, padding, mark);
    t
}

/// The view of an optional value text.
#[verifier::opaque]
pub open spec fn text_view(o: Option<String>) -> Option<Seq<char>> {
    match o {
        Some(x) => Some(x@),
        None => None,
    }
}

fn bool_string(v: Option<bool>) -> (r: Option<String>)
    ensures
        text_view(r) == bool_value(v),
{
    reveal(text_view);
    match v {
        Some(true) => Some(String::from_str("true")),
        Some(false) => Some(String::from_str("false")),
        None => None,
    }
}

fn u8_string(v: Option<u8>) -> (r: Option<String>)
    ensures
        text_view(r) == u8_text(v),
{
    reveal(text_view);
    match v {
        Some(n) => Some(decimal_string(n as u64)),
        None => None,
    }
}

fn minutes_string(v: Option<u64>) -> (r: Option<String>)
    ensures
        text_view(r) == minutes_value(v),
{
    reveal(text_view);
    match v {
        Some(secs) => Some(decimal_string(secs / 60)),
        None => None,
    }
}

fn charging_string(v: Option<ChargingStatus>) -> (r: Option<String>)
    ensures
        text_view(r) == charging_value(v),
{
    reveal(text_view);
    match v {
        Some(ChargingStatus::NotCharging) => Some(String::from_str("Not charging")),
        Some(ChargingStatus::Charging) => Some(String::from_str("Charging")),
        Some(ChargingStatus::FullyCharged) => Some(String::from_str("Fully charged")),
        Some(ChargingStatus::ChargeError) => Some(String::from_str("Charging error!")),
        None => None,
    }
}

fn color_string(v: Option<Color>) -> (r: Option<String>)
    ensures
        text_view(r) == color_value(v),
{
    reveal(text_view);
    match v {
        Some(Color::BlackBlack) => Some(String::from_str("Black")),
        Some(Color::BlackRed) => Some(String::from_str("Red")),
        Some(Color::UnknownColor(n)) => {
            let mut s = String::from_str("Unknown color ");
            let d = decimal_string(n as u64);
            s.append(d.as_str());
            Some(s)
        },
        None => None,
    }
}

fn padded_label(label: &str, width: usize) -> (r: String)
    ensures
        r@ == padded(label@, width as nat),
{
    let mut r = String::from_str(label);
    let len = label.unicode_len();
    if len < width {
        let mut i: usize = len;
        while i < width
            invariant
                len <= i <= width,
                len == label@.len(),
                r@ == label@ + Seq::new((i - len) as nat, |_i: int| ' '),
            decreases width - i,
        {
            r.append(" ");
            proof {
                reveal_strlit(" ");
            }
            i = i + 1;
            assert(r@ =~= label@ + Seq::new((i - len) as nat, |_i: int| ' '));
        }
    }
    r
}

/// Appends one row to the text.
fn push_row(
    out: &mut String,
    label: &str,
    value: Option<String>,
    unit: &str,
    read_only: bool,
    padding: usize,
    mark: bool,
)
    ensures
        final(out)@ == add_row(
            old(out)@,
            label@,
            text_view(value),
            unit@,
            read_only,
            padding as nat,
            mark,
        ),
{
    reveal(add_row);
    reveal(text_view);
    match value {
        None => {},
        Some(v) => {
            if out.as_str().unicode_len() > 0 {
                out.append("\n");
            }
            let p = padded_label(label, padding);
            out.append(p.as_str());
            out.append(" ");
            out.append(v.as_str());
            out.append(unit);
            if mark && read_only {
                out.append(" (read-only)");
            }
        },
    }
}

impl DeviceState {
    fn text(&self, padding: usize, mark: bool) -> (r: String)
        ensures
            r@ == state_text(*self, padding as nat, mark),
    {
        let c = self.capabilities;
        let mut out = String::new();
        push_row(&mut out, "Battery level:", u8_string(self.battery_level), "%", false, padding, mark);
        push_row(&mut out, "Charging status:", charging_string(self.charging), "", false, padding, mark);
        push_row(&mut out, "Muted:", bool_string(self.muted), "", !c.can_set_mute, padding, mark);
        push_row(&mut out, "Mic connected:", bool_string(self.mic_connected), "", false, padding, mark);
        push_row(&mut out, "Automatic shutdown after:", minutes_string(self.automatic_shutdown_after), "min", !c.can_set_automatic_shutdown, padding, mark);
        push_row(&mut out, "Pairing info:", u8_string(self.pairing_info), "", false, padding, mark);
        push_row(&mut out, "Product color:", color_string(self.product_color), "", false, padding, mark);
        push_row(&mut out, "Side tone:", bool_string(self.side_tone_on), "", !c.can_set_side_tone, padding, mark);
        push_row(&mut out, "Side tone volume:", u8_string(self.side_tone_volume), "", !c.can_set_side_tone_volume, padding, mark);
        push_row(&mut out, "Surround sound:", bool_string(self.surround_sound), "", !c.can_set_surround_sound, padding, mark);
        push_row(&mut out, "Voice prompt:", bool_string(self.voice_prompt_on), "", !c.can_set_voice_prompt, padding, mark);
        push_row(&mut out, "Connected:", bool_string(self.connected), "", false, padding, mark);
        push_row(&mut out, "Playback muted:", bool_string(self.silent), "", !c.can_set_silent_mode, padding, mark);
        out
    }

    /// One line per known value, labels padded to `padding` characters.
    pub fn to_string_with_padding(&self, padding: usize) -> (r: String)
        ensures
            r@ == state_text(*self, padding as nat, false),
    {
        self.text(padding, false)
    }

    /// As `to_string_with_padding`, with values this device cannot set
    /// marked read-only.
    pub fn to_string_with_readonly_info(&self, padding: usize) -> (r: String)
        ensures
            r@ == state_text(*self, padding as nat, true),
    {
        self.text(padding, true)
    }
}

} // verus!
