//! Decimal numbers, the texts that the window shows and how often it redraws.

use vstd::prelude::*;
use crate::config::BindMode;

verus! {

/// The character of a decimal digit.
pub open spec fn digit_char(d: nat) -> char {
    (48 + d) as char
}

/// The decimal notation of `n`, without leading zeros.
pub open spec fn decimal(n: nat) -> Seq<char>
    decreases n,
{
    if n < 10 {
        seq![digit_char(n)]
    } else {
        decimal(n / 10) + seq![digit_char(n % 10)]
    }
}

/// The number that a string of decimal digits stands for.
pub open spec fn decimal_value(s: Seq<char>) -> int
    decreases s.len(),
{
    if s.len() == 0 {
        0
    } else {
        decimal_value(s.drop_last()) * 10 + (s.last() as int - 48)
    }
}

/// `tenths` written with one decimal place: `123` is `12.3`, `40` is `4.0`.
pub open spec fn tenths_text(tenths: nat) -> Seq<char> {
    decimal(tenths / 10) + seq!['.'] + seq![digit_char(tenths % 10)]
}

/// The status line under the controls, with the live rate's text.
pub open spec fn footer_text(engine_alive: bool, total_clicks: nat, live_text: Seq<char>) -> Seq<char> {
    "ENGINE "@ + (if engine_alive { "ONLINE"@ } else { "OFFLINE"@ }) + "  \u{2022}  TOTAL CLICKS "@
        + decimal(total_clicks) + "  \u{2022}  LIVE "@ + live_text + " CPS"@
}

pub(crate) fn digit_str(d: u64) -> (s: &'static str)
    requires
        d < 10,
    ensures
        s@ == seq![digit_char(d as nat)],
{
    match d {
        0 => {
            proof {
                reveal_strlit("0");
            }
            "0"
        },
        1 => {
            proof {
                reveal_strlit("1");
            }
            "1"
        },
        2 => {
            proof {
                reveal_strlit("2");
            }
            "2"
        },
        3 => {
            proof {
                reveal_strlit("3");
            }
            "3"
        },
        4 => {
            proof {
                reveal_strlit("4");
            }
            "4"
        },
        5 => {
            proof {
                reveal_strlit("5");
            }
            "5"
        },
        6 => {
            proof {
                reveal_strlit("6");
            }
            "6"
        },
        7 => {
            proof {
                reveal_strlit("7");
            }
            "7"
        },
        8 => {
            proof {
                reveal_strlit("8");
            }
            "8"
        },
        _ => {
            proof {
                reveal_strlit("9");
            }
            "9"
        },
    }
}

/// Writes `n` in decimal.
pub fn decimal_string(n: u64) -> (s: String)
    ensures
        s@ == decimal(n as nat),
    decreases n,
{
    if n < 10 {
        String::from_str(digit_str(n))
    } else {
        let mut s = decimal_string(n / 10);
        s.append(digit_str(n % 10));
        s
    }
}

/// Below this many tenths, writing the tenths with one decimal place gives
/// the same text as one-decimal formatting of their tenth as an `f32`: there
/// the `f32` quotient lies within half a tenth of the exact one.
pub const ONE_DECIMAL_LIMIT: u32 = 10_485_760;

/// Writes a number of tenths with one decimal place (`1234` is `123.4`), for
/// counts below `ONE_DECIMAL_LIMIT`; `None` for larger counts, whose
/// one-decimal text is floating-point formatting left to the caller.
pub fn tenths_string(tenths: u32) -> (s: Option<String>)
    ensures
        tenths < ONE_DECIMAL_LIMIT ==> s is Some && s->Some_0@ == tenths_text(tenths as nat),
        tenths >= ONE_DECIMAL_LIMIT ==> s is None,
{
    if tenths >= ONE_DECIMAL_LIMIT {
        return None;
    }
    let mut s = decimal_string((tenths / 10) as u64);
    proof {
        reveal_strlit(".");
    }
    s.append(".");
    s.append(digit_str((tenths % 10) as u64));
    Some(s)
}

/// The live rate (in tenths of a click per second) for the large display:
/// whole rates in decimal; other rates with one decimal place while below
/// `ONE_DECIMAL_LIMIT`, else `None` (floating-point formatting).
pub fn live_cps_display(live_cps_x10: u32) -> (s: Option<String>)
    ensures
        live_cps_x10 % 10 == 0 ==> s is Some && s->Some_0@ == decimal((live_cps_x10 / 10) as nat),
        live_cps_x10 % 10 != 0 && live_cps_x10 < ONE_DECIMAL_LIMIT ==> s is Some && s->Some_0@ == tenths_text(live_cps_x10 as nat),
        live_cps_x10 % 10 != 0 && live_cps_x10 >= ONE_DECIMAL_LIMIT ==> s is None,
{
    if live_cps_x10 % 10 == 0 {
        Some(decimal_string((live_cps_x10 / 10) as u64))
    } else {
        tenths_string(live_cps_x10)
    }
}

/// The status line: whether the engine runs, the clicks so far and the live
/// rate, given as its one-decimal text.
pub fn footer_line(engine_alive: bool, total_clicks: u64, live_text: &str) -> (s: String)
    ensures
        s@ == footer_text(engine_alive, total_clicks as nat, live_text@),
{
    let mut s = String::from_str("ENGINE ");
    if engine_alive {
        s.append("ONLINE");
    } else {
        s.append("OFFLINE");
    }
    s.append("  \u{2022}  TOTAL CLICKS ");
    let total = decimal_string(total_clicks);
    s.append(total.as_str());
    s.append("  \u{2022}  LIVE ");
    s.append(live_text);
    s.append(" CPS");
    s
}

/// The status badge: `ACTIVE` while clicking, else `READY`.
pub fn status_label(active: bool) -> (text: &'static str)
    ensures
        active ==> text@ == "ACTIVE"@,
        !active ==> text@ == "READY"@,
{
    if active {
        "ACTIVE"
    } else {
        "READY"
    }
}

/// The big switch's caption: `STOP` while clicking, else `TOGGLE`.
pub fn switch_label(active: bool) -> (text: &'static str)
    ensures
        active ==> text@ == "STOP"@,
        !active ==> text@ == "TOGGLE"@,
{
    if active {
        "STOP"
    } else {
        "TOGGLE"
    }
}

proof fn lemma_digit_char(d: nat)
    requires
        d < 10,
    ensures
        digit_char(d) as int == 48 + d,
{
}

/// The decimal notation is right: read back, it gives the number, and it
/// starts with `0` only for zero itself.
pub proof fn law_decimal_round_trip(n: nat)
    ensures
        decimal_value(decimal(n)) == n,
        decimal(n).len() >= 1,
        decimal(n)[0] == '0' <==> n == 0,
    decreases n,
{
    if n >= 10 {
        law_decimal_round_trip(n / 10);
        lemma_digit_char(n % 10);
        let s = decimal(n);
        assert(s.drop_last() =~= decimal(n / 10));
        assert(s[0] == decimal(n / 10)[0]);
        assert(s.last() == digit_char(n % 10));
        assert((n / 10) * 10 + n % 10 == n);
    } else {
        lemma_digit_char(n);
        assert(decimal(n).drop_last() =~= Seq::<char>::empty());
        assert(decimal_value(Seq::<char>::empty()) == 0);
    }
}

/// The line that names the current hotkey mode.
pub fn hotkey_mode_line(mode: BindMode) -> (line: String)
    ensures
        mode == BindMode::Toggle ==> line@ == "Current hotkey mode: "@ + "Toggle"@,
        mode == BindMode::Hold ==> line@ == "Current hotkey mode: "@ + "Hold"@,
{
    let mut line = String::from_str("Current hotkey mode: ");
    line.append(mode.label());
    line
}

/// The note under the status line.
#[derive(Debug, PartialEq, Eq)]
pub enum FooterNote {
    /// The prompt to press the key to bind.
    BindPrompt,
    /// The error of the last attempt to save the configuration.
    SaveError { line: String },
    /// The note about how the clicker works.
    About,
}

/// The note under the status line: the bind prompt while waiting for a key,
/// else the last save error if there was one, else the note about the clicker.
pub fn footer_note(waiting_for_bind: bool, save_error: Option<&str>) -> (note: FooterNote)
    ensures
        waiting_for_bind ==> note == FooterNote::BindPrompt,
        !waiting_for_bind && save_error is Some ==> note is SaveError
            && note->line@ == "Config save error: "@ + save_error->Some_0@,
        !waiting_for_bind && save_error is None ==> note == FooterNote::About,
{
    if waiting_for_bind {
        FooterNote::BindPrompt
    } else {
        match save_error {
            Some(error) => {
                let mut line = String::from_str("Config save error: ");
                line.append(error);
                FooterNote::SaveError { line }
            },
            None => FooterNote::About,
        }
    }
}

/// How long the window waits before redrawing, in milliseconds: 16 while
/// clicking, 40 otherwise.
pub fn repaint_interval_millis(active: bool) -> (millis: u64)
    ensures
        active ==> millis == 16,
        !active ==> millis == 40,
{
    if active {
        16
    } else {
        40
    }
}

} // verus!
