//! The texts a session renders: the rate indicator, the position indicator,
//! the control legend, the paused message, and the blank run that clears a
//! stale rate indicator.

use vstd::prelude::*;

use crate::keys::KeyBindings;
use crate::numfmt::spec_u64_digits;
use crate::numfmt::u64_to_string;
use crate::strutil::push_char;

verus! {

/// The rate indicator: `WPM: ` followed by the rate in decimal.
pub open spec fn spec_wpm_label(wpm: int) -> Seq<char> {
    "WPM: "@ + spec_u64_digits(wpm)
}

/// How a key is named to the user: space is spelled out, any other key
/// shows as itself.
pub open spec fn spec_key_name(c: char) -> Seq<char> {
    if c == ' ' {
        "Spacebar"@
    } else {
        seq![c]
    }
}

/// The position indicator: `Word ` then the one-based position, ` / `,
/// and the total.
pub open spec fn spec_position_label(current: int, total: int) -> Seq<char> {
    "Word "@ + spec_u64_digits(current) + " / "@ + spec_u64_digits(total)
}

/// The control legend listing the active bindings.
pub open spec fn spec_controls_label(keys: KeyBindings) -> Seq<char> {
    "Controls: "@ + spec_key_name(keys.pause) + "=Pause, "@ + seq![keys.quit] + "=Quit, "@
        + seq![keys.increase_wpm] + "/"@ + seq![keys.decrease_wpm] + " = Adjust WPM"@
}

/// The message shown once on entering the pause sub-state.
pub open spec fn spec_paused_message(keys: KeyBindings) -> Seq<char> {
    "Paused. Press \""@ + spec_key_name(keys.pause) + "\" to resume..."@
}

/// Build the user-facing name of a key.
pub fn key_name(c: char) -> (s: String)
    ensures
        s@ == spec_key_name(c),
{
    if c == ' ' {
        "Spacebar".to_owned()
    } else {
        let mut s = String::new();
        push_char(&mut s, c);
        proof {
            assert(s@ =~= seq![c]);
        }
        s
    }
}

/// Build the rate indicator for the given rate.
pub fn wpm_label(wpm: u64) -> (s: String)
    ensures
        s@ == spec_wpm_label(wpm as int),
{
    let mut s = "WPM: ".to_owned();
    let digits = u64_to_string(wpm);
    s.append(digits.as_str());
    s
}

/// Build the position indicator for a one-based position and a total.
pub fn position_label(current: u64, total: u64) -> (s: String)
    ensures
        s@ == spec_position_label(current as int, total as int),
{
    let mut s = "Word ".to_owned();
    let cur = u64_to_string(current);
    s.append(cur.as_str());
    s.append(" / ");
    let tot = u64_to_string(total);
    s.append(tot.as_str());
    proof {
        assert(s@ =~= spec_position_label(current as int, total as int));
    }
    s
}

/// Build the control legend for the given bindings.
pub fn controls_label(keys: &KeyBindings) -> (s: String)
    ensures
        s@ == spec_controls_label(*keys),
{
    let mut s = "Controls: ".to_owned();
    let pause = key_name(keys.pause);
    s.append(pause.as_str());
    s.append("=Pause, ");
    push_char(&mut s, keys.quit);
    s.append("=Quit, ");
    push_char(&mut s, keys.increase_wpm);
    s.append("/");
    push_char(&mut s, keys.decrease_wpm);
    s.append(" = Adjust WPM");
    proof {
        assert(s@ =~= spec_controls_label(*keys));
    }
    s
}

/// Build the message shown once on entering the pause sub-state.
pub fn paused_message(keys: &KeyBindings) -> (s: String)
    ensures
        s@ == spec_paused_message(*keys),
{
    let mut s = "Paused. Press \"".to_owned();
    let pause = key_name(keys.pause);
    s.append(pause.as_str());
    s.append("\" to resume...");
    proof {
        assert(s@ =~= spec_paused_message(*keys));
    }
    s
}

/// A run of spaces as wide as the widest rate indicator, written over a
/// stale indicator before a narrower one replaces it.
pub fn wpm_clear_label() -> (s: String)
    ensures
        s@.len() == spec_wpm_label(crate::rate::MAX_WPM as int).len(),
        forall|i: int| 0 <= i < s@.len() ==> s@[i] == ' ',
{
    proof {
        reveal_strlit("WPM: ");
        reveal_strlit("         ");
        reveal_with_fuel(spec_u64_digits, 5);
        assert(spec_u64_digits(1000int) =~= seq!['1', '0', '0', '0']);
    }
    let s = "         ".to_owned();
    proof {
        assert(forall|i: int| 0 <= i < s@.len() ==> s@[i] == ' ');
    }
    s
}

} // verus!
