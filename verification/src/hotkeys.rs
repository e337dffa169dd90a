//! Parsing of hotkey descriptions such as `CommandOrControl+Shift+D`.
//!
//! A description is split at `+`; each part, trimmed of spaces and
//! lowered to ASCII lower case, either switches on a modifier or names
//! the key, the last named key winning.  The parsed shortcut is this
//! crate's own value; the shell outside converts it to the hotkey
//! registry's types when it registers the handler.

use vstd::prelude::*;

verus! {

/// The modifier keys of a shortcut.
#[derive(Clone, Copy, PartialEq, Eq, Structural, Debug)]
pub struct HotkeyModifiers {
    /// The platform command key.
    pub super_key: bool,
    /// The control key.
    pub control: bool,
    /// The shift key.
    pub shift: bool,
    /// The alt (option) key.
    pub alt: bool,
}

impl HotkeyModifiers {
    /// No modifier held.
    pub fn none() -> (r: HotkeyModifiers)
        ensures
            r == spec_no_modifiers(),
    {
        HotkeyModifiers { super_key: false, control: false, shift: false, alt: false }
    }

    /// Whether no modifier is held.
    pub fn is_empty(&self) -> (r: bool)
        ensures
            r == (*self == spec_no_modifiers()),
    {
        !self.super_key && !self.control && !self.shift && !self.alt
    }
}

/// No modifier held.
pub open spec fn spec_no_modifiers() -> HotkeyModifiers {
    HotkeyModifiers { super_key: false, control: false, shift: false, alt: false }
}

/// The keys a shortcut can name.
#[derive(Clone, Copy, PartialEq, Eq, Structural, Debug)]
pub enum KeyCode {
    KeyA,
    KeyB,
    KeyC,
    KeyD,
    KeyE,
    KeyF,
    KeyG,
    KeyH,
    KeyI,
    KeyJ,
    KeyK,
    KeyL,
    KeyM,
    KeyN,
    KeyO,
    KeyP,
    KeyQ,
    KeyR,
    KeyS,
    KeyT,
    KeyU,
    KeyV,
    KeyW,
    KeyX,
    KeyY,
    KeyZ,
    Digit0,
    Digit1,
    Digit2,
    Digit3,
    Digit4,
    Digit5,
    Digit6,
    Digit7,
    Digit8,
    Digit9,
    F1,
    F2,
    F3,
    F4,
    F5,
    F6,
    F7,
    F8,
    F9,
    F10,
    F11,
    F12,
    Space,
    Enter,
    Escape,
    Tab,
    Backspace,
}

/// A parsed shortcut: the modifiers and the key.
#[derive(Clone, Copy, PartialEq, Eq, Structural, Debug)]
pub struct ParsedShortcut {
    /// The modifier keys held.
    pub modifiers: HotkeyModifiers,
    /// The key pressed.
    pub code: KeyCode,
}

/// ASCII lower case of one character; anything but `A`–`Z` is kept.
pub open spec fn lower_char(c: char) -> char {
    match c {
        'A' => 'a',
        'B' => 'b',
        'C' => 'c',
        'D' => 'd',
        'E' => 'e',
        'F' => 'f',
        'G' => 'g',
        'H' => 'h',
        'I' => 'i',
        'J' => 'j',
        'K' => 'k',
        'L' => 'l',
        'M' => 'm',
        'N' => 'n',
        'O' => 'o',
        'P' => 'p',
        'Q' => 'q',
        'R' => 'r',
        'S' => 's',
        'T' => 't',
        'U' => 'u',
        'V' => 'v',
        'W' => 'w',
        'X' => 'x',
        'Y' => 'y',
        'Z' => 'z',
        _ => c,
    }
}

fn lower_char_exec(c: char) -> (r: char)
    ensures
        r == lower_char(c),
{
    match c {
        'A' => 'a',
        'B' => 'b',
        'C' => 'c',
        'D' => 'd',
        'E' => 'e',
        'F' => 'f',
        'G' => 'g',
        'H' => 'h',
        'I' => 'i',
        'J' => 'j',
        'K' => 'k',
        'L' => 'l',
        'M' => 'm',
        'N' => 'n',
        'O' => 'o',
        'P' => 'p',
        'Q' => 'q',
        'R' => 'r',
        'S' => 's',
        'T' => 't',
        'U' => 'u',
        'V' => 'v',
        'W' => 'w',
        'X' => 'x',
        'Y' => 'y',
        'Z' => 'z',
        _ => c,
    }
}

/// A token without its leading and trailing spaces.
pub open spec fn trim_spaces(t: Seq<char>) -> Seq<char>
    decreases t.len(),
{
    if t.len() > 0 && t[0] == ' ' {
        trim_spaces(t.drop_first())
    } else if t.len() > 0 && t.last() == ' ' {
        trim_spaces(t.drop_last())
    } else {
        t
    }
}

/// A token trimmed and lowered: the form the keyword table reads.
pub open spec fn normalize_token(t: Seq<char>) -> Seq<char> {
    trim_spaces(t).map_values(|c: char| lower_char(c))
}

/// The key a normalized token names, if any.
pub open spec fn key_of_token(t: Seq<char>) -> Option<KeyCode> {
    if t == "a"@ {
        Some(KeyCode::KeyA)
    } else if t == "b"@ {
        Some(KeyCode::KeyB)
    } else if t == "c"@ {
        Some(KeyCode::KeyC)
    } else if t == "d"@ {
        Some(KeyCode::KeyD)
    } else if t == "e"@ {
        Some(KeyCode::KeyE)
    } else if t == "f"@ {
        Some(KeyCode::KeyF)
    } else if t == "g"@ {
        Some(KeyCode::KeyG)
    } else if t == "h"@ {
        Some(KeyCode::KeyH)
    } else if t == "i"@ {
        Some(KeyCode::KeyI)
    } else if t == "j"@ {
        Some(KeyCode::KeyJ)
    } else if t == "k"@ {
        Some(KeyCode::KeyK)
    } else if t == "l"@ {
        Some(KeyCode::KeyL)
    } else if t == "m"@ {
        Some(KeyCode::KeyM)
    } else if t == "n"@ {
        Some(KeyCode::KeyN)
    } else if t == "o"@ {
        Some(KeyCode::KeyO)
    } else if t == "p"@ {
        Some(KeyCode::KeyP)
    } else if t == "q"@ {
        Some(KeyCode::KeyQ)
    } else if t == "r"@ {
        Some(KeyCode::KeyR)
    } else if t == "s"@ {
        Some(KeyCode::KeyS)
    } else if t == "t"@ {
        Some(KeyCode::KeyT)
    } else if t == "u"@ {
        Some(KeyCode::KeyU)
    } else if t == "v"@ {
        Some(KeyCode::KeyV)
    } else if t == "w"@ {
        Some(KeyCode::KeyW)
    } else if t == "x"@ {
        Some(KeyCode::KeyX)
    } else if t == "y"@ {
        Some(KeyCode::KeyY)
    } else if t == "z"@ {
        Some(KeyCode::KeyZ)
    } else if t == "0"@ {
        Some(KeyCode::Digit0)
    } else if t == "1"@ {
        Some(KeyCode::Digit1)
    } else if t == "2"@ {
        Some(KeyCode::Digit2)
    } else if t == "3"@ {
        Some(KeyCode::Digit3)
    } else if t == "4"@ {
        Some(KeyCode::Digit4)
    } else if t == "5"@ {
        Some(KeyCode::Digit5)
    } else if t == "6"@ {
        Some(KeyCode::Digit6)
    } else if t == "7"@ {
        Some(KeyCode::Digit7)
    } else if t == "8"@ {
        Some(KeyCode::Digit8)
    } else if t == "9"@ {
        Some(KeyCode::Digit9)
    } else if t == "f1"@ {
        Some(KeyCode::F1)
    } else if t == "f2"@ {
        Some(KeyCode::F2)
    } else if t == "f3"@ {
        Some(KeyCode::F3)
    } else if t == "f4"@ {
        Some(KeyCode::F4)
    } else if t == "f5"@ {
        Some(KeyCode::F5)
    } else if t == "f6"@ {
        Some(KeyCode::F6)
    } else if t == "f7"@ {
        Some(KeyCode::F7)
    } else if t == "f8"@ {
        Some(KeyCode::F8)
    } else if t == "f9"@ {
        Some(KeyCode::F9)
    } else if t == "f10"@ {
        Some(KeyCode::F10)
    } else if t == "f11"@ {
        Some(KeyCode::F11)
    } else if t == "f12"@ {
        Some(KeyCode::F12)
    } else if t == "space"@ {
        Some(KeyCode::Space)
    } else if t == "enter"@ || t == "return"@ {
        Some(KeyCode::Enter)
    } else if t == "escape"@ || t == "esc"@ {
        Some(KeyCode::Escape)
    } else if t == "tab"@ {
        Some(KeyCode::Tab)
    } else if t == "backspace"@ {
        Some(KeyCode::Backspace)
    } else {
        None
    }
}

/// The effect of one token on the parse: a modifier word switches its
/// modifier on, a key word replaces the key, anything else changes
/// nothing.
pub open spec fn apply_token(
    m: HotkeyModifiers,
    code: Option<KeyCode>,
    raw: Seq<char>,
) -> (HotkeyModifiers, Option<KeyCode>) {
    let t = normalize_token(raw);
    if t == "command"@ || t == "commandorcontrol"@ || t == "cmd"@ || t == "super"@ {
        (HotkeyModifiers { super_key: true, ..m }, code)
    } else if t == "control"@ || t == "ctrl"@ {
        (HotkeyModifiers { control: true, ..m }, code)
    } else if t == "shift"@ {
        (HotkeyModifiers { shift: true, ..m }, code)
    } else if t == "alt"@ || t == "option"@ {
        (HotkeyModifiers { alt: true, ..m }, code)
    } else {
        match key_of_token(t) {
            Some(k) => (m, Some(k)),
            None => (m, code),
        }
    }
}

/// The whole description scanned left to right: characters accumulate
/// into the current token, each `+` and the end of the description
/// apply it.
pub open spec fn scan_tokens(
    s: Seq<char>,
    m: HotkeyModifiers,
    code: Option<KeyCode>,
    tok: Seq<char>,
) -> (HotkeyModifiers, Option<KeyCode>)
    decreases s.len(),
{
    if s.len() == 0 {
        apply_token(m, code, tok)
    } else if s[0] == '+' {
        let applied = apply_token(m, code, tok);
        scan_tokens(s.drop_first(), applied.0, applied.1, Seq::empty())
    } else {
        scan_tokens(s.drop_first(), m, code, tok.push(s[0]))
    }
}

/// What parsing a whole description yields: the accumulated modifiers
/// and the last key named, or nothing when no token named a key.
pub open spec fn spec_parse_shortcut(s: Seq<char>) -> Option<ParsedShortcut> {
    let scanned = scan_tokens(s, spec_no_modifiers(), None, Seq::empty());
    match scanned.1 {
        Some(k) => Some(ParsedShortcut { modifiers: scanned.0, code: k }),
        None => None,
    }
}

/// Character-wise equality of a token and a keyword.
fn token_eq(t: &Vec<char>, w: &str) -> (r: bool)
    ensures
        r == (t@ == w@),
{
    let n = w.unicode_len();
    if t.len() != n {
        proof {
            assert(t@.len() != w@.len());
        }
        return false;
    }
    let mut i: usize = 0;
    while i < n
        invariant
            0 <= i <= n,
            n == t@.len() && n == w@.len(),
            forall|j: int| 0 <= j < i ==> t@[j] == w@[j],
        decreases n - i,
    {
        if t[i] != w.get_char(i) {
            return false;
        }
        i = i + 1;
    }
    proof {
        assert(t@ =~= w@);
    }
    true
}

/// Trim and lower one raw token.
fn normalize_exec(tok: &Vec<char>) -> (r: Vec<char>)
    ensures
        r@ == normalize_token(tok@),
{
    let len = tok.len();
    let mut start: usize = 0;
    proof {
        assert(tok@.subrange(0, len as int) =~= tok@);
    }
    while start < len && tok[start] == ' '
        invariant
            0 <= start <= len,
            len == tok@.len(),
            trim_spaces(tok@) == trim_spaces(tok@.subrange(start as int, len as int)),
        decreases len - start,
    {
        proof {
            let sub = tok@.subrange(start as int, len as int);
            assert(sub[0] == tok@[start as int]);
            assert(sub.drop_first() =~= tok@.subrange(start as int + 1, len as int));
        }
        start = start + 1;
    }
    proof {
        if start < len {
            assert(tok@.subrange(start as int, len as int)[0] == tok@[start as int]);
        }
    }
    let mut end: usize = len;
    while end > start && tok[end - 1] == ' '
        invariant
            start <= end <= len,
            len == tok@.len(),
            start < len ==> tok@[start as int] != ' ',
            start == end || tok@[start as int] != ' ',
            trim_spaces(tok@) == trim_spaces(tok@.subrange(start as int, end as int)),
        decreases end,
    {
        proof {
            let sub = tok@.subrange(start as int, end as int);
            assert(sub[0] == tok@[start as int]);
            assert(sub.last() == tok@[end - 1]);
            assert(sub.drop_last() =~= tok@.subrange(start as int, end as int - 1));
        }
        end = end - 1;
    }
    proof {
        let sub = tok@.subrange(start as int, end as int);
        if sub.len() > 0 {
            assert(sub[0] == tok@[start as int]);
            assert(sub.last() == tok@[end - 1]);
        }
        assert(trim_spaces(sub) == sub);
    }
    let mut out: Vec<char> = Vec::new();
    let mut i: usize = start;
    while i < end
        invariant
            start <= i <= end <= len,
            len == tok@.len(),
            out@.len() == i - start,
            forall|j: int|
                0 <= j < out@.len() ==> out@[j] == lower_char(
                    tok@.subrange(start as int, end as int)[j],
                ),
        decreases end - i,
    {
        let c = lower_char_exec(tok[i]);
        out.push(c);
        i = i + 1;
    }
    proof {
        assert(out@ =~= trim_spaces(tok@).map_values(|c: char| lower_char(c)));
    }
    out
}

/// Look a normalized token up in the key table.
fn key_lookup(t: &Vec<char>) -> (r: Option<KeyCode>)
    ensures
        r == key_of_token(t@),
{
    if token_eq(t, "a") {
        Some(KeyCode::KeyA)
    } else if token_eq(t, "b") {
        Some(KeyCode::KeyB)
    } else if token_eq(t, "c") {
        Some(KeyCode::KeyC)
    } else if token_eq(t, "d") {
        Some(KeyCode::KeyD)
    } else if token_eq(t, "e") {
        Some(KeyCode::KeyE)
    } else if token_eq(t, "f") {
        Some(KeyCode::KeyF)
    } else if token_eq(t, "g") {
        Some(KeyCode::KeyG)
    } else if token_eq(t, "h") {
        Some(KeyCode::KeyH)
    } else if token_eq(t, "i") {
        Some(KeyCode::KeyI)
    } else if token_eq(t, "j") {
        Some(KeyCode::KeyJ)
    } else if token_eq(t, "k") {
        Some(KeyCode::KeyK)
    } else if token_eq(t, "l") {
        Some(KeyCode::KeyL)
    } else if token_eq(t, "m") {
        Some(KeyCode::KeyM)
    } else if token_eq(t, "n") {
        Some(KeyCode::KeyN)
    } else if token_eq(t, "o") {
        Some(KeyCode::KeyO)
    } else if token_eq(t, "p") {
        Some(KeyCode::KeyP)
    } else if token_eq(t, "q") {
        Some(KeyCode::KeyQ)
    } else if token_eq(t, "r") {
        Some(KeyCode::KeyR)
    } else if token_eq(t, "s") {
        Some(KeyCode::KeyS)
    } else if token_eq(t, "t") {
        Some(KeyCode::KeyT)
    } else if token_eq(t, "u") {
        Some(KeyCode::KeyU)
    } else if token_eq(t, "v") {
        Some(KeyCode::KeyV)
    } else if token_eq(t, "w") {
        Some(KeyCode::KeyW)
    } else if token_eq(t, "x") {
        Some(KeyCode::KeyX)
    } else if token_eq(t, "y") {
        Some(KeyCode::KeyY)
    } else if token_eq(t, "z") {
        Some(KeyCode::KeyZ)
    } else if token_eq(t, "0") {
        Some(KeyCode::Digit0)
    } else if token_eq(t, "1") {
        Some(KeyCode::Digit1)
    } else if token_eq(t, "2") {
        Some(KeyCode::Digit2)
    } else if token_eq(t, "3") {
        Some(KeyCode::Digit3)
    } else if token_eq(t, "4") {
        Some(KeyCode::Digit4)
    } else if token_eq(t, "5") {
        Some(KeyCode::Digit5)
    } else if token_eq(t, "6") {
        Some(KeyCode::Digit6)
    } else if token_eq(t, "7") {
        Some(KeyCode::Digit7)
    } else if token_eq(t, "8") {
        Some(KeyCode::Digit8)
    } else if token_eq(t, "9") {
        Some(KeyCode::Digit9)
    } else if token_eq(t, "f1") {
        Some(KeyCode::F1)
    } else if token_eq(t, "f2") {
        Some(KeyCode::F2)
    } else if token_eq(t, "f3") {
        Some(KeyCode::F3)
    } else if token_eq(t, "f4") {
        Some(KeyCode::F4)
    } else if token_eq(t, "f5") {
        Some(KeyCode::F5)
    } else if token_eq(t, "f6") {
        Some(KeyCode::F6)
    } else if token_eq(t, "f7") {
        Some(KeyCode::F7)
    } else if token_eq(t, "f8") {
        Some(KeyCode::F8)
    } else if token_eq(t, "f9") {
        Some(KeyCode::F9)
    } else if token_eq(t, "f10") {
        Some(KeyCode::F10)
    } else if token_eq(t, "f11") {
        Some(KeyCode::F11)
    } else if token_eq(t, "f12") {
        Some(KeyCode::F12)
    } else if token_eq(t, "space") {
        Some(KeyCode::Space)
    } else if token_eq(t, "enter") {
        Some(KeyCode::Enter)
    } else if token_eq(t, "return") {
        Some(KeyCode::Enter)
    } else if token_eq(t, "escape") {
        Some(KeyCode::Escape)
    } else if token_eq(t, "esc") {
        Some(KeyCode::Escape)
    } else if token_eq(t, "tab") {
        Some(KeyCode::Tab)
    } else if token_eq(t, "backspace") {
        Some(KeyCode::Backspace)
    } else {
        None
    }
}

/// Apply one raw token to the running modifiers and key.
fn apply_token_exec(m: &mut HotkeyModifiers, code: &mut Option<KeyCode>, tok: &Vec<char>)
    ensures
        (*final(m), *final(code)) == apply_token(*old(m), *old(code), tok@),
{
    let t = normalize_exec(tok);
    if token_eq(&t, "command") || token_eq(&t, "commandorcontrol") || token_eq(&t, "cmd")
        || token_eq(&t, "super") {
        m.super_key = true;
    } else if token_eq(&t, "control") || token_eq(&t, "ctrl") {
        m.control = true;
    } else if token_eq(&t, "shift") {
        m.shift = true;
    } else if token_eq(&t, "alt") || token_eq(&t, "option") {
        m.alt = true;
    } else {
        match key_lookup(&t) {
            Some(k) => {
                *code = Some(k);
            },
            None => {},
        }
    }
}

/// Parse a shortcut description like `CommandOrControl+Shift+D`.
///
/// The description is split at `+`; each part, trimmed of spaces and
/// lowered to ASCII lower case, either switches a modifier on or
/// names the key, the last named key winning.  Without any key the
/// description does not parse.
pub fn parse_shortcut(shortcut_str: &str) -> (r: Option<ParsedShortcut>)
    ensures
        r == spec_parse_shortcut(shortcut_str@),
{
    let n = shortcut_str.unicode_len();
    let mut m = HotkeyModifiers::none();
    let mut code: Option<KeyCode> = None;
    let mut tok: Vec<char> = Vec::new();
    let mut i: usize = 0;
    proof {
        assert(shortcut_str@.skip(0) =~= shortcut_str@);
    }
    while i < n
        invariant
            0 <= i <= n,
            n == shortcut_str@.len(),
            scan_tokens(shortcut_str@, spec_no_modifiers(), None, Seq::empty()) == scan_tokens(
                shortcut_str@.skip(i as int),
                m,
                code,
                tok@,
            ),
        decreases n - i,
    {
        let c = shortcut_str.get_char(i);
        proof {
            let rest = shortcut_str@.skip(i as int);
            assert(rest.len() > 0);
            assert(rest[0] == shortcut_str@[i as int]);
            assert(rest.drop_first() =~= shortcut_str@.skip(i as int + 1));
        }
        if c == '+' {
            apply_token_exec(&mut m, &mut code, &tok);
            tok = Vec::new();
            proof {
                assert(tok@ =~= Seq::<char>::empty());
            }
        } else {
            tok.push(c);
        }
        i = i + 1;
    }
    proof {
        assert(shortcut_str@.skip(n as int) =~= Seq::<char>::empty());
    }
    apply_token_exec(&mut m, &mut code, &tok);
    match code {
        Some(k) => Some(ParsedShortcut { modifiers: m, code: k }),
        None => None,
    }
}

} // verus!
