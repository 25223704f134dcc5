//! The versioned configuration and the host/UI messages.

use vstd::prelude::*;

use crate::format::{decimal, push_decimal};
use crate::text::{
    chars_of, is_ascii_alphanumeric, is_ascii_digit, owned, push_str, trim, trim_chars,
};

verus! {

/// The configuration format version this library reads and writes.
pub const CONFIG_VERSION: u32 = 1;

/// The identifier of the host's current-user endpoint.
pub const HOST_ENDPOINT_ID: &'static str = "recentry-host-v1";

/// The Windows named pipe of the host.
pub const HOST_PIPE_NAME: &'static str = "\\\\.\\pipe\\recentry-host-v1";

/// The interface language.
#[derive(Debug, Clone, Copy, PartialEq, Eq, Structural)]
pub enum Language {
    System,
    ZhCn,
    En,
}

impl Default for Language {
    fn default() -> (r: Self)
        ensures
            r == Language::System,
    {
        Language::System
    }
}

/// The global shortcut that opens the launcher.
#[derive(Debug, Clone, PartialEq, Eq)]
pub struct Hotkey {
    pub ctrl: bool,
    pub alt: bool,
    pub shift: bool,
    pub win: bool,
    pub key: String,
}

impl Default for Hotkey {
    /// Ctrl+Alt+R.
    fn default() -> (r: Self)
        ensures
            r.ctrl && r.alt && !r.shift && !r.win,
            r.key@ == seq!['R'],
    {
        let key = owned("R");
        proof {
            reveal_strlit("R");
        }
        Hotkey { ctrl: true, alt: true, shift: false, win: false, key }
    }
}

pub open spec fn word_ctrl() -> Seq<char> {
    seq!['C', 't', 'r', 'l', '+']
}

pub open spec fn word_alt() -> Seq<char> {
    seq!['A', 'l', 't', '+']
}

pub open spec fn word_shift() -> Seq<char> {
    seq!['S', 'h', 'i', 'f', 't', '+']
}

pub open spec fn word_win() -> Seq<char> {
    seq!['W', 'i', 'n', '+']
}

/// The shortcut as shown to users: the held modifiers, then the key, joined by `+`.
pub open spec fn spec_display(h: Hotkey) -> Seq<char> {
    (if h.ctrl { word_ctrl() } else { Seq::empty() }) + (if h.alt { word_alt() } else {
        Seq::empty()
    }) + (if h.shift { word_shift() } else { Seq::empty() }) + (if h.win { word_win() } else {
        Seq::empty()
    }) + h.key@
}

impl Hotkey {
    /// The shortcut as shown to users, e.g. `Ctrl+Alt+R`.
    pub fn display(&self) -> (r: String)
        ensures
            r@ == spec_display(*self),
    {
        let mut r = String::new();
        if self.ctrl {
            push_str(&mut r, "Ctrl+");
        }
        if self.alt {
            push_str(&mut r, "Alt+");
        }
        if self.shift {
            push_str(&mut r, "Shift+");
        }
        if self.win {
            push_str(&mut r, "Win+");
        }
        push_str(&mut r, self.key.as_str());
        proof {
            reveal_strlit("Ctrl+");
            reveal_strlit("Alt+");
            reveal_strlit("Shift+");
            reveal_strlit("Win+");
        }
        assert(r@ =~= spec_display(*self));
        r
    }
}

/// The persisted configuration.
#[derive(Debug, Clone, PartialEq, Eq)]
pub struct Config {
    pub version: u32,
    pub language: Language,
    pub hotkey: Hotkey,
    pub autostart: bool,
    pub vscode_path_override: Option<String>,
    pub first_run_completed: bool,
}

impl Default for Config {
    /// Version 1, system language, Ctrl+Alt+R, no autostart, no override, first run pending.
    fn default() -> (r: Self)
        ensures
            r.version == CONFIG_VERSION,
            r.language == Language::System,
            r.hotkey.ctrl && r.hotkey.alt && !r.hotkey.shift && !r.hotkey.win,
            r.hotkey.key@ == seq!['R'],
            !r.autostart,
            r.vscode_path_override is None,
            !r.first_run_completed,
    {
        Config {
            version: CONFIG_VERSION,
            language: Language::System,
            hotkey: Hotkey::default(),
            autostart: false,
            vscode_path_override: None,
            first_run_completed: false,
        }
    }
}

/// The value of a run of decimal digits.
pub open spec fn digits_value(d: Seq<char>) -> nat
    decreases d.len(),
{
    if d.len() == 0 {
        0
    } else {
        digits_value(d.drop_last()) * 10 + ((d.last() as u32) - 48) as nat
    }
}

pub open spec fn all_digits(d: Seq<char>) -> bool {
    forall|i: int| 0 <= i < d.len() ==> is_ascii_digit(#[trigger] d[i])
}

/// `s` read as an unsigned decimal of at most `max`, as `str::parse` reads
/// unsigned integers: an optional `+`, then at least one digit.
pub open spec fn parse_unsigned(s: Seq<char>, max: nat) -> Option<nat> {
    let d = if s.len() > 0 && s[0] == '+' { s.drop_first() } else { s };
    if d.len() > 0 && all_digits(d) && digits_value(d) <= max {
        Some(digits_value(d))
    } else {
        None
    }
}

/// Whether a hotkey key (already trimmed) names A–Z, a–z, 0–9 or F1–F24.
pub open spec fn is_valid_key(key: Seq<char>) -> bool {
    (key.len() == 1 && is_ascii_alphanumeric(key[0])) || (key.len() > 0 && key[0] == 'F' && match parse_unsigned(key.drop_first(), 255) {
        Some(v) => 1 <= v <= 24,
        None => false,
    })
}

pub open spec fn has_modifier(h: Hotkey) -> bool {
    h.ctrl || h.alt || h.shift || h.win
}

/// Whether `config` is acceptable: the supported version, a valid key, and at least one modifier.
pub open spec fn is_valid_config(config: Config) -> bool {
    config.version == CONFIG_VERSION && is_valid_key(trim(config.hotkey.key@)) && has_modifier(
        config.hotkey,
    )
}

pub open spec fn version_error(version: u32) -> Seq<char> {
    "unsupported config version "@ + decimal(version as nat)
}

pub open spec fn key_error() -> Seq<char> {
    "hotkey key must be A-Z, 0-9, or F1-F24"@
}

pub open spec fn modifier_error() -> Seq<char> {
    "hotkey must contain at least one modifier"@
}

/// The error `validate` reports for `config`, checked in order: version, key, modifiers.
pub open spec fn validation_error(config: Config) -> Option<Seq<char>> {
    if config.version != CONFIG_VERSION {
        Some(version_error(config.version))
    } else if !is_valid_key(trim(config.hotkey.key@)) {
        Some(key_error())
    } else if !has_modifier(config.hotkey) {
        Some(modifier_error())
    } else {
        None
    }
}

/// Reads `s[from..]` as an unsigned decimal of at most `max`.
pub(crate) fn parse_unsigned_at(s: &Vec<char>, from: usize, max: u64) -> (r: Option<u64>)
    requires
        from <= s@.len(),
    ensures
        match r {
            Some(v) => parse_unsigned(s@.subrange(from as int, s@.len() as int), max as nat) == Some(
                v as nat,
            ),
            None => parse_unsigned(s@.subrange(from as int, s@.len() as int), max as nat) is None,
        },
{
    let ghost whole = s@.subrange(from as int, s@.len() as int);
    let mut start = from;
    if start < s.len() && s[start] == '+' {
        start = start + 1;
        assert(whole.drop_first() =~= s@.subrange(start as int, s@.len() as int));
    }
    let ghost d = s@.subrange(start as int, s@.len() as int);
    assert(d == (if whole.len() > 0 && whole[0] == '+' { whole.drop_first() } else { whole }));
    if start == s.len() {
        return None;
    }
    let mut value: u64 = 0;
    let mut over = false;
    let mut i = start;
    while i < s.len()
        invariant
            start <= i <= s@.len(),
            d == s@.subrange(start as int, s@.len() as int),
            d == (if whole.len() > 0 && whole[0] == '+' { whole.drop_first() } else { whole }),
            whole == s@.subrange(from as int, s@.len() as int),
            all_digits(s@.subrange(start as int, i as int)),
            !over ==> value == digits_value(s@.subrange(start as int, i as int)) && value <= max,
            over ==> digits_value(s@.subrange(start as int, i as int)) > max,
        decreases s.len() - i,
    {
        let c = s[i];
        if !('0' <= c && c <= '9') {
            assert(d[i - start] == c);
            assert(!is_ascii_digit(d[i - start]));
            assert(!all_digits(d));
            return None;
        }
        let ghost prefix = s@.subrange(start as int, i + 1);
        assert(prefix.drop_last() =~= s@.subrange(start as int, i as int));
        assert(prefix.last() == c);
        if !over {
            let digit = (c as u32 - 48) as u64;
            if digit > max || value > (max - digit) / 10 {
                over = true;
                assert(value * 10 + digit > max) by (nonlinear_arith)
                    requires
                        digit > max || value > (max - digit) / 10,
                ;
            } else {
                assert(value * 10 + digit <= max) by (nonlinear_arith)
                    requires
                        value <= (max - digit) / 10,
                        digit <= 9,
                ;
                value = value * 10 + digit;
            }
        } else {
            assert(digits_value(prefix) >= digits_value(prefix.drop_last()));
        }
        i = i + 1;
        assert(all_digits(s@.subrange(start as int, i as int)));
    }
    if over {
        None
    } else {
        Some(value)
    }
}

impl Config {
    /// Accepts the configuration, or names the first problem: an unsupported
    /// version, a key outside A–Z/0–9/F1–F24, or no modifier.
    pub fn validate(&self) -> (r: Result<(), String>)
        ensures
            match r {
                Ok(()) => is_valid_config(*self) && validation_error(*self) is None,
                Err(e) => validation_error(*self) == Some(e@),
            },
    {
        if self.version != CONFIG_VERSION {
            let mut e = owned("unsupported config version ");
            push_decimal(&mut e, self.version as u64);
            return Err(e);
        }
        let raw = chars_of(self.hotkey.key.as_str());
        let key = trim_chars(&raw);
        let single = key.len() == 1 && {
            let c = key[0];
            ('a' <= c && c <= 'z') || ('A' <= c && c <= 'Z') || ('0' <= c && c <= '9')
        };
        let function = key.len() > 0 && key[0] == 'F' && match parse_unsigned_at(&key, 1, 255) {
            Some(v) => 1 <= v && v <= 24,
            None => false,
        };
        proof {
            if key@.len() > 0 {
                assert(key@.subrange(1, key@.len() as int) =~= key@.drop_first());
            }
        }
        if !(single || function) {
            return Err(owned("hotkey key must be A-Z, 0-9, or F1-F24"));
        }
        if !(self.hotkey.ctrl || self.hotkey.alt || self.hotkey.shift || self.hotkey.win) {
            return Err(owned("hotkey must contain at least one modifier"));
        }
        Ok(())
    }
}

/// A request to the host.
#[derive(Debug, Clone, PartialEq, Eq)]
pub enum HostCommand {
    Ping,
    Show,
    Settings,
    Diagnostics,
    SaveConfig(Config),
    Quit,
}

/// The host's reply.
#[derive(Debug, Clone, PartialEq, Eq)]
pub enum HostResponse {
    Pong,
    Accepted,
    Saved,
    Error(String),
    Bye,
}

/// A request from the host to the UI process.
#[derive(Debug, Clone, PartialEq, Eq)]
pub enum UiCommand {
    Show,
    Hide,
    Settings(Config),
    Diagnostics(String),
    Quit,
}

/// The UI process's reply.
#[derive(Debug, Clone, PartialEq, Eq)]
pub enum UiResponse {
    Ready,
    Hidden,
    Shown,
    Error(String),
    Quitting,
}

} // verus!
