//! The global shortcut: how it is written down and which keys the text
//! stands for.

use vstd::prelude::*;
use crate::text::{
    chars_of, concat, first_index_of, lemma_first_index_of, lowercase, slice_of, str_eq,
    to_lowercase, to_uppercase, trim, trimmed, uppercase,
};

verus! {

/// Under which name the shortcut is stored.
pub const SHORTCUT_KEY: &'static str = "toggle_shortcut";

/// The shortcut of a fresh installation.
pub const DEFAULT_SHORTCUT: &'static str = "Alt+P";

/// A shortcut as the user wrote it: a modifier and a key.
#[derive(Clone)]
pub struct ShortcutConfig {
    pub modifier: String,
    pub key: String,
    pub display: String,
}

impl Default for ShortcutConfig {
    fn default() -> (config: ShortcutConfig)
        ensures
            config.modifier@ == "Alt"@,
            config.key@ == "P"@,
            config.display@ == DEFAULT_SHORTCUT@,
    {
        ShortcutConfig {
            modifier: "Alt".to_owned(),
            key: "P".to_owned(),
            display: DEFAULT_SHORTCUT.to_owned(),
        }
    }
}

/// A modifier key.
#[derive(Clone, Copy, Debug, PartialEq, Eq, Structural)]
pub enum Modifier {
    Alt,
    Control,
    Shift,
    Super,
}

/// A key that a shortcut can end in.
#[derive(Clone, Copy, Debug, PartialEq, Eq, Structural)]
pub enum KeyCode {
    /// A letter, by its capital.
    Letter(char),
    /// A digit of the upper row.
    Digit(char),
    /// A function key, `F1` to `F12`, by its number.
    Function(u8),
    Space,
    Escape,
    Backquote,
}

/// How many `+` signs `s` holds.
pub open spec fn plus_count(s: Seq<char>) -> nat
    decreases s.len(),
{
    if s.len() == 0 {
        0
    } else if s.last() == '+' {
        plus_count(s.drop_last()) + 1
    } else {
        plus_count(s.drop_last())
    }
}

/// Where the first `+` sign of `s` stands; the length of `s` where it has
/// none.
pub open spec fn first_plus(s: Seq<char>) -> int {
    first_index_of(s, '+')
}

/// The modifier that `lower`, a name in lower case, stands for.
pub open spec fn modifier_named(lower: Seq<char>) -> Option<Modifier> {
    if lower == "alt"@ {
        Some(Modifier::Alt)
    } else if lower == "ctrl"@ || lower == "control"@ {
        Some(Modifier::Control)
    } else if lower == "shift"@ {
        Some(Modifier::Shift)
    } else if lower == "super"@ || lower == "meta"@ || lower == "cmd"@ {
        Some(Modifier::Super)
    } else {
        None
    }
}

/// Whether `c` is a capital from `A` to `Z`.
pub open spec fn is_capital(c: char) -> bool {
    'A' as u32 <= c as u32 <= 'Z' as u32
}

/// Whether `c` is a digit from `0` to `9`.
pub open spec fn is_digit(c: char) -> bool {
    '0' as u32 <= c as u32 <= '9' as u32
}

/// The function key that `upper` stands for.
pub open spec fn function_key_named(upper: Seq<char>) -> Option<u8> {
    if upper == "F1"@ {
        Some(1u8)
    } else if upper == "F2"@ {
        Some(2u8)
    } else if upper == "F3"@ {
        Some(3u8)
    } else if upper == "F4"@ {
        Some(4u8)
    } else if upper == "F5"@ {
        Some(5u8)
    } else if upper == "F6"@ {
        Some(6u8)
    } else if upper == "F7"@ {
        Some(7u8)
    } else if upper == "F8"@ {
        Some(8u8)
    } else if upper == "F9"@ {
        Some(9u8)
    } else if upper == "F10"@ {
        Some(10u8)
    } else if upper == "F11"@ {
        Some(11u8)
    } else if upper == "F12"@ {
        Some(12u8)
    } else {
        None
    }
}

/// The key that `upper`, a name in upper case, stands for.
pub open spec fn key_named(upper: Seq<char>) -> Option<KeyCode> {
    if upper.len() == 1 && is_capital(upper[0]) {
        Some(KeyCode::Letter(upper[0]))
    } else if upper.len() == 1 && is_digit(upper[0]) {
        Some(KeyCode::Digit(upper[0]))
    } else if function_key_named(upper) is Some {
        Some(KeyCode::Function(function_key_named(upper)->0))
    } else if upper == "SPACE"@ {
        Some(KeyCode::Space)
    } else if upper == "ESCAPE"@ || upper == "ESC"@ {
        Some(KeyCode::Escape)
    } else if upper == "BACKQUOTE"@ || upper == "`"@ {
        Some(KeyCode::Backquote)
    } else {
        None
    }
}

/// The keys that a modifier name and a key name stand for together.
pub open spec fn shortcut_named(modifier: Seq<char>, key: Seq<char>) -> Option<(Modifier, KeyCode)> {
    match (modifier_named(lowercase(modifier)), key_named(uppercase(key))) {
        (Some(m), Some(k)) => Some((m, k)),
        _ => None,
    }
}

fn function_key(upper: &str) -> (key: Option<u8>)
    ensures
        key == function_key_named(upper@),
{
    if str_eq(upper, "F1") {
        Some(1)
    } else if str_eq(upper, "F2") {
        Some(2)
    } else if str_eq(upper, "F3") {
        Some(3)
    } else if str_eq(upper, "F4") {
        Some(4)
    } else if str_eq(upper, "F5") {
        Some(5)
    } else if str_eq(upper, "F6") {
        Some(6)
    } else if str_eq(upper, "F7") {
        Some(7)
    } else if str_eq(upper, "F8") {
        Some(8)
    } else if str_eq(upper, "F9") {
        Some(9)
    } else if str_eq(upper, "F10") {
        Some(10)
    } else if str_eq(upper, "F11") {
        Some(11)
    } else if str_eq(upper, "F12") {
        Some(12)
    } else {
        None
    }
}

fn key_code(upper: &str) -> (key: Option<KeyCode>)
    ensures
        key == key_named(upper@),
{
    let chars = chars_of(upper);
    if chars.len() == 1 {
        let c = chars[0];
        let code = c as u32;
        if 'A' as u32 <= code && code <= 'Z' as u32 {
            return Some(KeyCode::Letter(c));
        }
        if '0' as u32 <= code && code <= '9' as u32 {
            return Some(KeyCode::Digit(c));
        }
    }
    match function_key(upper) {
        Some(n) => {
            return Some(KeyCode::Function(n));
        },
        None => {},
    }
    if str_eq(upper, "SPACE") {
        Some(KeyCode::Space)
    } else if str_eq(upper, "ESCAPE") || str_eq(upper, "ESC") {
        Some(KeyCode::Escape)
    } else if str_eq(upper, "BACKQUOTE") || str_eq(upper, "`") {
        Some(KeyCode::Backquote)
    } else {
        None
    }
}

fn modifier_code(lower: &str) -> (modifier: Option<Modifier>)
    ensures
        modifier == modifier_named(lower@),
{
    if str_eq(lower, "alt") {
        Some(Modifier::Alt)
    } else if str_eq(lower, "ctrl") || str_eq(lower, "control") {
        Some(Modifier::Control)
    } else if str_eq(lower, "shift") {
        Some(Modifier::Shift)
    } else if str_eq(lower, "super") || str_eq(lower, "meta") || str_eq(lower, "cmd") {
        Some(Modifier::Super)
    } else {
        None
    }
}

impl ShortcutConfig {
    /// Reads a shortcut written as modifier, `+`, key. A text with no `+`
    /// or with several is none. What stands around the two names is
    /// trimmed off; the text itself is kept for display.
    pub fn from_string(s: &str) -> (config: Option<ShortcutConfig>)
        ensures
            config is Some <==> plus_count(s@) == 1,
            config matches Some(c) ==> {
                &&& c.modifier@ == trimmed(s@.subrange(0, first_plus(s@)))
                &&& c.key@ == trimmed(s@.subrange(first_plus(s@) + 1, s@.len() as int))
                &&& c.display@ == s@
            },
    {
        let chars = chars_of(s);
        let mut count: usize = 0;
        let mut first: usize = 0;
        let mut i: usize = 0;
        assert(chars@.take(0) =~= Seq::<char>::empty());
        while i < chars.len()
            invariant
                i <= chars@.len(),
                count <= i,
                count == plus_count(chars@.take(i as int)),
                count > 0 ==> first < i && chars@[first as int] == '+',
                count > 0 ==> forall|j: int| 0 <= j < first ==> chars@[j] != '+',
                count == 0 ==> forall|j: int| 0 <= j < i ==> chars@[j] != '+',
            decreases chars@.len() - i,
        {
            proof {
                assert(chars@.take(i + 1).drop_last() =~= chars@.take(i as int));
                assert(chars@.take(i + 1).last() == chars@[i as int]);
            }
            if chars[i] == '+' {
                if count == 0 {
                    first = i;
                }
                count += 1;
            }
            i += 1;
        }
        assert(chars@.take(i as int) =~= chars@);
        if count != 1 {
            return None;
        }
        proof {
            lemma_first_index_of(s@, '+');
            let p = first_plus(s@);
            if p < first {
                assert(s@[p] != '+');
            }
            if first < p {
                assert(s@[first as int] != '+');
            }
        }
        let before = slice_of(s, 0, first);
        let after = slice_of(s, first + 1, chars.len());
        Some(
            ShortcutConfig {
                modifier: trim(before.as_str()),
                key: trim(after.as_str()),
                display: s.to_owned(),
            },
        )
    }

    /// The keys that the shortcut stands for, where both of its names are
    /// known. Names count without regard to case.
    pub fn to_shortcut(&self) -> (keys: Option<(Modifier, KeyCode)>)
        ensures
            keys == shortcut_named(self.modifier@, self.key@),
    {
        let modifier = modifier_code(to_lowercase(self.modifier.as_str()).as_str());
        let key = key_code(to_uppercase(self.key.as_str()).as_str());
        match (modifier, key) {
            (Some(m), Some(k)) => Some((m, k)),
            _ => None,
        }
    }
}

/// The shortcut that is in force: the stored one where there is one and it
/// can be read, the default otherwise.
pub fn saved_shortcut(stored: Option<&str>) -> (config: ShortcutConfig)
    ensures
        match stored {
            Some(text) => if plus_count(text@) == 1 {
                &&& config.modifier@ == trimmed(text@.subrange(0, first_plus(text@)))
                &&& config.key@ == trimmed(
                    text@.subrange(first_plus(text@) + 1, text@.len() as int),
                )
                &&& config.display@ == text@
            } else {
                &&& config.modifier@ == "Alt"@
                &&& config.key@ == "P"@
                &&& config.display@ == DEFAULT_SHORTCUT@
            },
            None => {
                &&& config.modifier@ == "Alt"@
                &&& config.key@ == "P"@
                &&& config.display@ == DEFAULT_SHORTCUT@
            },
        },
{
    match stored {
        Some(text) => match ShortcutConfig::from_string(text) {
            Some(config) => config,
            None => ShortcutConfig::default(),
        },
        None => ShortcutConfig::default(),
    }
}

/// The text that the tray icon shows for a shortcut.
pub fn tray_tooltip(config: &ShortcutConfig) -> (tooltip: String)
    ensures
        tooltip@ == "WorkOpilot - "@ + config.display@ + " para abrir"@,
{
    let mut tooltip = concat("WorkOpilot - ", config.display.as_str());
    tooltip.append(" para abrir");
    tooltip
}

} // verus!
