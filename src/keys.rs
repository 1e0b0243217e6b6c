//! Keys and key combinations, parsed from text such as `Ctrl+Shift+T`.
use crate::text::{lower_of, lowercase, push_char, str_eq};
use vstd::prelude::*;

verus! {

/// A keyboard key.
#[derive(Debug, Clone, Copy, PartialEq, Eq, Structural)]
pub enum Key {
    Char(char),
    Control,
    Alt,
    Shift,
    Super,
    Enter,
    Escape,
    Tab,
    Backspace,
    Delete,
    Left,
    Right,
    Up,
    Down,
    Home,
    End,
    PageUp,
    PageDown,
    F1,
    F2,
    F3,
    F4,
    F5,
    F6,
    F7,
    F8,
    F9,
    F10,
    F11,
    F12,
}

/// A key pressed while the modifiers are held, in order.
#[derive(Debug, Clone)]
pub struct KeyCombo {
    pub modifiers: Vec<Key>,
    pub key: Key,
}

/// Why a key combination was refused.
#[derive(Debug, Clone, PartialEq, Eq)]
pub enum KeyComboError {
    /// The text is empty.
    Empty,
    /// A token before the last is no modifier.
    UnknownModifier(String),
    /// The last token is neither one printable character nor a named key.
    UnknownKey(String),
}

/// The separator between the tokens of a combination.
pub const SEPARATOR: char = '+';

/// The tokens of `s` between separators; one empty token for the empty text.
pub open spec fn split_tokens(s: Seq<char>) -> Seq<Seq<char>>
    decreases s.len(),
{
    if s.len() == 0 {
        seq![Seq::<char>::empty()]
    } else {
        let init = split_tokens(s.drop_last());
        if s.last() == SEPARATOR {
            init.push(Seq::<char>::empty())
        } else {
            init.update(init.len() - 1, init.last().push(s.last()))
        }
    }
}

proof fn lemma_split_nonempty(s: Seq<char>)
    ensures
        split_tokens(s).len() >= 1,
    decreases s.len(),
{
    if s.len() > 0 {
        lemma_split_nonempty(s.drop_last());
    }
}

/// The modifier that a lower-case token names.
pub open spec fn modifier_of(t: Seq<char>) -> Option<Key> {
    if t == "ctrl"@ || t == "control"@ {
        Some(Key::Control)
    } else if t == "alt"@ {
        Some(Key::Alt)
    } else if t == "shift"@ {
        Some(Key::Shift)
    } else if t == "super"@ || t == "meta"@ || t == "win"@ {
        Some(Key::Super)
    } else {
        None
    }
}

/// The named key that a lower-case token names.
pub open spec fn named_key_of(t: Seq<char>) -> Option<Key> {
    if t == "enter"@ || t == "return"@ {
        Some(Key::Enter)
    } else if t == "esc"@ || t == "escape"@ {
        Some(Key::Escape)
    } else if t == "tab"@ {
        Some(Key::Tab)
    } else if t == "backspace"@ {
        Some(Key::Backspace)
    } else if t == "delete"@ || t == "del"@ {
        Some(Key::Delete)
    } else if t == "left"@ {
        Some(Key::Left)
    } else if t == "right"@ {
        Some(Key::Right)
    } else if t == "up"@ {
        Some(Key::Up)
    } else if t == "down"@ {
        Some(Key::Down)
    } else if t == "home"@ {
        Some(Key::Home)
    } else if t == "end"@ {
        Some(Key::End)
    } else if t == "pageup"@ {
        Some(Key::PageUp)
    } else if t == "pagedown"@ {
        Some(Key::PageDown)
    } else if t == "f1"@ {
        Some(Key::F1)
    } else if t == "f2"@ {
        Some(Key::F2)
    } else if t == "f3"@ {
        Some(Key::F3)
    } else if t == "f4"@ {
        Some(Key::F4)
    } else if t == "f5"@ {
        Some(Key::F5)
    } else if t == "f6"@ {
        Some(Key::F6)
    } else if t == "f7"@ {
        Some(Key::F7)
    } else if t == "f8"@ {
        Some(Key::F8)
    } else if t == "f9"@ {
        Some(Key::F9)
    } else if t == "f10"@ {
        Some(Key::F10)
    } else if t == "f11"@ {
        Some(Key::F11)
    } else if t == "f12"@ {
        Some(Key::F12)
    } else {
        None
    }
}

/// A character that is not a control character.
pub open spec fn printable(c: char) -> bool {
    c >= ' ' && !('\u{7f}' <= c && c <= '\u{9f}')
}

/// The key that the last token names: itself when it is one printable
/// character, else a named key whatever its case.
pub open spec fn key_of(t: Seq<char>) -> Option<Key> {
    if t.len() == 1 && printable(t[0]) {
        Some(Key::Char(t[0]))
    } else {
        named_key_of(lower_of(t))
    }
}

/// Every token before the last names a modifier.
pub open spec fn modifiers_known(parts: Seq<Seq<char>>) -> bool {
    forall|i: int| 0 <= i < parts.len() - 1 ==> (#[trigger] modifier_of(lower_of(parts[i]))) is Some
}

/// The text is a valid combination.
pub open spec fn combo_parses(s: Seq<char>) -> bool {
    s.len() > 0 && modifiers_known(split_tokens(s)) && key_of(split_tokens(s).last()) is Some
}

/// The index of the first token before the last that names no modifier.
pub open spec fn first_unknown_modifier(parts: Seq<Seq<char>>, i: int) -> bool {
    0 <= i < parts.len() - 1 && modifier_of(lower_of(parts[i])) is None && forall|j: int|
        0 <= j < i ==> (#[trigger] modifier_of(lower_of(parts[j]))) is Some
}

fn modifier_from(t: &str) -> (r: Option<Key>)
    ensures
        r == modifier_of(t@),
{
    if str_eq(t, "ctrl") || str_eq(t, "control") {
        Some(Key::Control)
    } else if str_eq(t, "alt") {
        Some(Key::Alt)
    } else if str_eq(t, "shift") {
        Some(Key::Shift)
    } else if str_eq(t, "super") || str_eq(t, "meta") || str_eq(t, "win") {
        Some(Key::Super)
    } else {
        None
    }
}

fn named_key_from(t: &str) -> (r: Option<Key>)
    ensures
        r == named_key_of(t@),
{
    if str_eq(t, "enter") || str_eq(t, "return") {
        Some(Key::Enter)
    } else if str_eq(t, "esc") || str_eq(t, "escape") {
        Some(Key::Escape)
    } else if str_eq(t, "tab") {
        Some(Key::Tab)
    } else if str_eq(t, "backspace") {
        Some(Key::Backspace)
    } else if str_eq(t, "delete") || str_eq(t, "del") {
        Some(Key::Delete)
    } else if str_eq(t, "left") {
        Some(Key::Left)
    } else if str_eq(t, "right") {
        Some(Key::Right)
    } else if str_eq(t, "up") {
        Some(Key::Up)
    } else if str_eq(t, "down") {
        Some(Key::Down)
    } else if str_eq(t, "home") {
        Some(Key::Home)
    } else if str_eq(t, "end") {
        Some(Key::End)
    } else if str_eq(t, "pageup") {
        Some(Key::PageUp)
    } else if str_eq(t, "pagedown") {
        Some(Key::PageDown)
    } else if str_eq(t, "f1") {
        Some(Key::F1)
    } else if str_eq(t, "f2") {
        Some(Key::F2)
    } else if str_eq(t, "f3") {
        Some(Key::F3)
    } else if str_eq(t, "f4") {
        Some(Key::F4)
    } else if str_eq(t, "f5") {
        Some(Key::F5)
    } else if str_eq(t, "f6") {
        Some(Key::F6)
    } else if str_eq(t, "f7") {
        Some(Key::F7)
    } else if str_eq(t, "f8") {
        Some(Key::F8)
    } else if str_eq(t, "f9") {
        Some(Key::F9)
    } else if str_eq(t, "f10") {
        Some(Key::F10)
    } else if str_eq(t, "f11") {
        Some(Key::F11)
    } else if str_eq(t, "f12") {
        Some(Key::F12)
    } else {
        None
    }
}

fn is_printable(c: char) -> (r: bool)
    ensures
        r == printable(c),
{
    c >= ' ' && !('\u{7f}' <= c && c <= '\u{9f}')
}

/// The key that a last token names, if any.
pub fn key_from(t: &str) -> (r: Option<Key>)
    ensures
        r == key_of(t@),
{
    if t.unicode_len() == 1 && is_printable(t.get_char(0)) {
        Some(Key::Char(t.get_char(0)))
    } else {
        named_key_from(lowercase(t).as_str())
    }
}

/// Splits `s` at each separator.
pub fn split_combo(s: &str) -> (r: Vec<String>)
    ensures
        r@.map_values(|t: String| t@) == split_tokens(s@),
{
    let n = s.unicode_len();
    let mut parts: Vec<String> = Vec::new();
    let mut cur = String::new();
    let mut i: usize = 0;
    assert(s@.subrange(0, 0).len() == 0);
    while i < n
        invariant
            n == s@.len(),
            i <= n,
            parts@.map_values(|t: String| t@).push(cur@) == split_tokens(s@.subrange(0, i as int)),
        decreases n - i,
    {
        let c = s.get_char(i);
        let ghost prev = s@.subrange(0, i as int);
        assert(s@.subrange(0, i + 1).drop_last() == prev);
        assert(s@.subrange(0, i + 1).last() == c);
        if c == SEPARATOR {
            let done = cur;
            parts.push(done);
            cur = String::new();
        } else {
            push_char(&mut cur, c);
        }
        proof {
            let v = parts@.map_values(|t: String| t@).push(cur@);
            assert(v =~= split_tokens(s@.subrange(0, i + 1)));
        }
        i = i + 1;
    }
    parts.push(cur);
    assert(s@.subrange(0, n as int) == s@);
    assert(parts@.map_values(|t: String| t@) =~= split_tokens(s@));
    parts
}

impl KeyCombo {
    /// Parses a combination such as `Ctrl+C`: every token but the last is a
    /// modifier, whatever its case; the last is one printable character, taken
    /// as it stands, or a named key whatever its case.
    pub fn parse(combo: &str) -> (r: Result<KeyCombo, KeyComboError>)
        ensures
            ({
                let parts = split_tokens(combo@);
                match r {
                    Ok(c) => combo@.len() > 0 && modifiers_known(parts) && key_of(parts.last())
                        == Some(c.key) && c.modifiers@.len() == parts.len() - 1 && forall|i: int|
                        0 <= i < parts.len() - 1 ==> Some(#[trigger] c.modifiers@[i]) == modifier_of(
                        lower_of(parts[i])),
                    Err(KeyComboError::Empty) => combo@.len() == 0,
                    Err(KeyComboError::UnknownModifier(t)) => combo@.len() > 0 && exists|i: int|
                        first_unknown_modifier(parts, i) && parts[i] == t@,
                    Err(KeyComboError::UnknownKey(t)) => combo@.len() > 0 && modifiers_known(parts)
                        && key_of(parts.last()) is None && t@ == parts.last(),
                }
            }),
    {
        if combo.unicode_len() == 0 {
            return Err(KeyComboError::Empty);
        }
        let parts = split_combo(combo);
        let ghost ps = split_tokens(combo@);
        proof {
            lemma_split_nonempty(combo@);
        }
        assert(parts@.len() == ps.len());
        let last = parts.len() - 1;
        let mut modifiers: Vec<Key> = Vec::new();
        let mut i: usize = 0;
        while i < last
            invariant
                combo@.len() > 0,
                ps == split_tokens(combo@),
                parts@.map_values(|t: String| t@) == ps,
                last == ps.len() - 1,
                i <= last,
                modifiers@.len() == i,
                forall|j: int| 0 <= j < i ==> Some(#[trigger] modifiers@[j]) == modifier_of(lower_of(ps[j])),
                forall|j: int| 0 <= j < i ==> (#[trigger] modifier_of(lower_of(ps[j]))) is Some,
            decreases last - i,
        {
            assert(parts@[i as int]@ == ps[i as int]);
            match modifier_from(lowercase(parts[i].as_str()).as_str()) {
                Some(m) => modifiers.push(m),
                None => {
                    assert(first_unknown_modifier(ps, i as int));
                    let t = parts[i].clone();
                    assert(parts@[i as int]@ == ps[i as int]);
                    assert(t@ == ps[i as int]);
                    assert(combo@.len() > 0);
                    return Err(KeyComboError::UnknownModifier(t));
                },
            }
            i = i + 1;
        }
        assert(parts@[last as int]@ == ps.last());
        assert(modifiers_known(ps));
        match key_from(parts[last].as_str()) {
            Some(key) => Ok(KeyCombo { modifiers, key }),
            None => Err(KeyComboError::UnknownKey(parts[last].clone())),
        }
    }
}

} // verus!
