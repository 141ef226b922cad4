//! Normalisation and validation of keyboard shortcut strings such as
//! `Cmd+Shift+Space`.
use vstd::prelude::*;

use crate::text::{
    chars_of, decimal, decimal_string, join, lemma_split_two, push_str, split, split_str, str_eq,
    to_lowercase, unicode_lowercase,
};

verus! {

/// What `keyboard_types::Key::from_str` recognised a key name as, reduced to
/// the distinctions that shortcut normalisation makes.
#[derive(Debug, Clone, Copy, PartialEq, Eq, Structural)]
pub enum KeyName {
    /// A printable key given by its character(s) (`Key::Character`).
    Character,
    ArrowDown,
    ArrowLeft,
    ArrowRight,
    ArrowUp,
    /// Any other named key.
    Other,
}

/// `c` is a control character (Unicode general category `Cc`, `char::is_control`).
pub open spec fn is_control(c: char) -> bool {
    (c as u32) <= 0x1F || (0x7F <= (c as u32) && (c as u32) <= 0x9F)
}

/// The names that `Key::from_str` takes as a character key: no control
/// character, and every character after the first is non-ASCII.
pub open spec fn is_key_string(s: Seq<char>) -> bool {
    &&& forall|i: int| 0 <= i < s.len() ==> !is_control(#[trigger] s[i])
    &&& forall|i: int| 1 <= i < s.len() ==> (#[trigger] s[i] as u32) >= 128
}

/// What `keyboard_types::Key::from_str` (version 0.7) returns for a name;
/// `None` when it does not recognise the name.
pub uninterp spec fn parsed_key(s: Seq<char>) -> Option<KeyName>;

/// Calls `keyboard_types::Key::from_str`. The result is named by `parsed_key`;
/// the one fact stated of it is the first arm of the crate's `from_str`: names
/// that `is_key_string` accepts, and only those, become `Key::Character`.
#[verifier::external_body]
pub(crate) fn parse_key(s: &str) -> (r: Option<KeyName>)
    ensures
        r == parsed_key(s@),
        (r == Some(KeyName::Character)) == is_key_string(s@),
{
    match <keyboard_types::Key as std::str::FromStr>::from_str(s) {
        Ok(keyboard_types::Key::Character(_)) => Some(KeyName::Character),
        Ok(keyboard_types::Key::ArrowDown) => Some(KeyName::ArrowDown),
        Ok(keyboard_types::Key::ArrowLeft) => Some(KeyName::ArrowLeft),
        Ok(keyboard_types::Key::ArrowRight) => Some(KeyName::ArrowRight),
        Ok(keyboard_types::Key::ArrowUp) => Some(KeyName::ArrowUp),
        Ok(_) => Some(KeyName::Other),
        Err(_) => None,
    }
}

/// The canonical name of a modifier or space key given in lower case.
pub open spec fn lowercase_alias(lower: Seq<char>) -> Option<Seq<char>> {
    if lower == "cmd"@ || lower == "ctrl"@ || lower == "command"@ || lower == "meta"@ || lower
        == "super"@ {
        Some("CommandOrControl"@)
    } else if lower == "control"@ {
        Some("Control"@)
    } else if lower == "option"@ || lower == "alt"@ {
        Some("Alt"@)
    } else if lower == "shift"@ {
        Some("Shift"@)
    } else if lower == "space"@ {
        Some("Space"@)
    } else {
        None
    }
}

/// The code name of a punctuation character.
pub open spec fn punctuation_char_name(c: char) -> Option<Seq<char>> {
    match c {
        ',' => Some("Comma"@),
        '.' => Some("Period"@),
        '/' => Some("Slash"@),
        ';' => Some("Semicolon"@),
        '\'' => Some("Quote"@),
        '[' => Some("BracketLeft"@),
        ']' => Some("BracketRight"@),
        '\\' => Some("Backslash"@),
        '=' => Some("Equal"@),
        '-' => Some("Minus"@),
        '`' => Some("Backquote"@),
        _ => None,
    }
}

/// The code name of a punctuation character key: a key of one punctuation
/// character.
pub open spec fn punctuation_name(key: Seq<char>) -> Option<Seq<char>> {
    if key.len() == 1 {
        punctuation_char_name(key[0])
    } else {
        None
    }
}

/// The name of a key that `Key::from_str` does not recognise.
pub open spec fn unparsed_key_name(key: Seq<char>) -> Seq<char> {
    if key == "Return"@ {
        "Enter"@
    } else if key == "ArrowUp"@ {
        "Up"@
    } else if key == "ArrowDown"@ {
        "Down"@
    } else if key == "ArrowLeft"@ {
        "Left"@
    } else if key == "ArrowRight"@ {
        "Right"@
    } else if key == "Cmd"@ || key == "Ctrl"@ || key == "Command"@ || key == "Super"@ || key
        == "Meta"@ {
        "CommandOrControl"@
    } else if key == "Option"@ {
        "Alt"@
    } else if key.len() == 1 && ('a' <= key[0] <= 'z' || 'A' <= key[0] <= 'Z') {
        seq![crate::text::ascii_upper(key[0])]
    } else {
        key
    }
}

/// The name of a key that `Key::from_str` recognised as `parsed`.
pub open spec fn parsed_key_name(key: Seq<char>, parsed: KeyName) -> Seq<char> {
    match parsed {
        KeyName::Character => if key == " "@ {
            "Space"@
        } else {
            key
        },
        KeyName::ArrowDown => "Down"@,
        KeyName::ArrowLeft => "Left"@,
        KeyName::ArrowRight => "Right"@,
        KeyName::ArrowUp => "Up"@,
        KeyName::Other => key,
    }
}

/// The normalised name of one key, given its Unicode lower-casing and what
/// `Key::from_str` made of it. A punctuation character is its own lower-case
/// form and never a modifier alias, so it is looked up first.
pub open spec fn key_name_from(key: Seq<char>, lower: Seq<char>, parsed: Option<KeyName>) -> Seq<
    char,
> {
    match punctuation_name(key) {
        Some(n) => n,
        None => match lowercase_alias(lower) {
            Some(n) => n,
            None => match parsed {
                Some(p) => parsed_key_name(key, p),
                None => unparsed_key_name(key),
            },
        },
    }
}

/// The normalised name of one key.
pub open spec fn normalized_key(key: Seq<char>) -> Seq<char> {
    key_name_from(key, unicode_lowercase(key), parsed_key(key))
}

/// The normalised shortcut: every `+`-separated key normalised.
pub open spec fn normalized_shortcut(s: Seq<char>) -> Seq<char> {
    join(split(s, '+').map_values(|k: Seq<char>| normalized_key(k)), "+"@)
}

/// The punctuation keys, each with the `keyboard_types::Code` name of the
/// physical key that types it.
pub open spec fn punctuation_codes() -> Seq<(char, Seq<char>)> {
    seq![
        (',', "Comma"@),
        ('.', "Period"@),
        ('/', "Slash"@),
        (';', "Semicolon"@),
        ('\'', "Quote"@),
        ('[', "BracketLeft"@),
        (']', "BracketRight"@),
        ('\\', "Backslash"@),
        ('=', "Equal"@),
        ('-', "Minus"@),
        ('`', "Backquote"@),
    ]
}

/// The code names of two different punctuation keys differ.
proof fn lemma_code_names_distinct(i: int, j: int)
    requires
        0 <= i < j < punctuation_codes().len(),
    ensures
        punctuation_codes()[i].1 != punctuation_codes()[j].1,
{
    if i == 0 && j == 1 {
        reveal_strlit("Comma");
        reveal_strlit("Period");
        assert("Comma"@.len() != "Period"@.len());
    }
    if i == 0 && j == 2 {
        reveal_strlit("Comma");
        reveal_strlit("Slash");
        assert("Comma"@[0] != "Slash"@[0]);
    }
    if i == 0 && j == 3 {
        reveal_strlit("Comma");
        reveal_strlit("Semicolon");
        assert("Comma"@.len() != "Semicolon"@.len());
    }
    if i == 0 && j == 4 {
        reveal_strlit("Comma");
        reveal_strlit("Quote");
        assert("Comma"@[0] != "Quote"@[0]);
    }
    if i == 0 && j == 5 {
        reveal_strlit("Comma");
        reveal_strlit("BracketLeft");
        assert("Comma"@.len() != "BracketLeft"@.len());
    }
    if i == 0 && j == 6 {
        reveal_strlit("Comma");
        reveal_strlit("BracketRight");
        assert("Comma"@.len() != "BracketRight"@.len());
    }
    if i == 0 && j == 7 {
        reveal_strlit("Comma");
        reveal_strlit("Backslash");
        assert("Comma"@.len() != "Backslash"@.len());
    }
    if i == 0 && j == 8 {
        reveal_strlit("Comma");
        reveal_strlit("Equal");
        assert("Comma"@[0] != "Equal"@[0]);
    }
    if i == 0 && j == 9 {
        reveal_strlit("Comma");
        reveal_strlit("Minus");
        assert("Comma"@[0] != "Minus"@[0]);
    }
    if i == 0 && j == 10 {
        reveal_strlit("Comma");
        reveal_strlit("Backquote");
        assert("Comma"@.len() != "Backquote"@.len());
    }
    if i == 1 && j == 2 {
        reveal_strlit("Period");
        reveal_strlit("Slash");
        assert("Period"@.len() != "Slash"@.len());
    }
    if i == 1 && j == 3 {
        reveal_strlit("Period");
        reveal_strlit("Semicolon");
        assert("Period"@.len() != "Semicolon"@.len());
    }
    if i == 1 && j == 4 {
        reveal_strlit("Period");
        reveal_strlit("Quote");
        assert("Period"@.len() != "Quote"@.len());
    }
    if i == 1 && j == 5 {
        reveal_strlit("Period");
        reveal_strlit("BracketLeft");
        assert("Period"@.len() != "BracketLeft"@.len());
    }
    if i == 1 && j == 6 {
        reveal_strlit("Period");
        reveal_strlit("BracketRight");
        assert("Period"@.len() != "BracketRight"@.len());
    }
    if i == 1 && j == 7 {
        reveal_strlit("Period");
        reveal_strlit("Backslash");
        assert("Period"@.len() != "Backslash"@.len());
    }
    if i == 1 && j == 8 {
        reveal_strlit("Period");
        reveal_strlit("Equal");
        assert("Period"@.len() != "Equal"@.len());
    }
    if i == 1 && j == 9 {
        reveal_strlit("Period");
        reveal_strlit("Minus");
        assert("Period"@.len() != "Minus"@.len());
    }
    if i == 1 && j == 10 {
        reveal_strlit("Period");
        reveal_strlit("Backquote");
        assert("Period"@.len() != "Backquote"@.len());
    }
    if i == 2 && j == 3 {
        reveal_strlit("Slash");
        reveal_strlit("Semicolon");
        assert("Slash"@.len() != "Semicolon"@.len());
    }
    if i == 2 && j == 4 {
        reveal_strlit("Slash");
        reveal_strlit("Quote");
        assert("Slash"@[0] != "Quote"@[0]);
    }
    if i == 2 && j == 5 {
        reveal_strlit("Slash");
        reveal_strlit("BracketLeft");
        assert("Slash"@.len() != "BracketLeft"@.len());
    }
    if i == 2 && j == 6 {
        reveal_strlit("Slash");
        reveal_strlit("BracketRight");
        assert("Slash"@.len() != "BracketRight"@.len());
    }
    if i == 2 && j == 7 {
        reveal_strlit("Slash");
        reveal_strlit("Backslash");
        assert("Slash"@.len() != "Backslash"@.len());
    }
    if i == 2 && j == 8 {
        reveal_strlit("Slash");
        reveal_strlit("Equal");
        assert("Slash"@[0] != "Equal"@[0]);
    }
    if i == 2 && j == 9 {
        reveal_strlit("Slash");
        reveal_strlit("Minus");
        assert("Slash"@[0] != "Minus"@[0]);
    }
    if i == 2 && j == 10 {
        reveal_strlit("Slash");
        reveal_strlit("Backquote");
        assert("Slash"@.len() != "Backquote"@.len());
    }
    if i == 3 && j == 4 {
        reveal_strlit("Semicolon");
        reveal_strlit("Quote");
        assert("Semicolon"@.len() != "Quote"@.len());
    }
    if i == 3 && j == 5 {
        reveal_strlit("Semicolon");
        reveal_strlit("BracketLeft");
        assert("Semicolon"@.len() != "BracketLeft"@.len());
    }
    if i == 3 && j == 6 {
        reveal_strlit("Semicolon");
        reveal_strlit("BracketRight");
        assert("Semicolon"@.len() != "BracketRight"@.len());
    }
    if i == 3 && j == 7 {
        reveal_strlit("Semicolon");
        reveal_strlit("Backslash");
        assert("Semicolon"@[0] != "Backslash"@[0]);
    }
    if i == 3 && j == 8 {
        reveal_strlit("Semicolon");
        reveal_strlit("Equal");
        assert("Semicolon"@.len() != "Equal"@.len());
    }
    if i == 3 && j == 9 {
        reveal_strlit("Semicolon");
        reveal_strlit("Minus");
        assert("Semicolon"@.len() != "Minus"@.len());
    }
    if i == 3 && j == 10 {
        reveal_strlit("Semicolon");
        reveal_strlit("Backquote");
        assert("Semicolon"@[0] != "Backquote"@[0]);
    }
    if i == 4 && j == 5 {
        reveal_strlit("Quote");
        reveal_strlit("BracketLeft");
        assert("Quote"@.len() != "BracketLeft"@.len());
    }
    if i == 4 && j == 6 {
        reveal_strlit("Quote");
        reveal_strlit("BracketRight");
        assert("Quote"@.len() != "BracketRight"@.len());
    }
    if i == 4 && j == 7 {
        reveal_strlit("Quote");
        reveal_strlit("Backslash");
        assert("Quote"@.len() != "Backslash"@.len());
    }
    if i == 4 && j == 8 {
        reveal_strlit("Quote");
        reveal_strlit("Equal");
        assert("Quote"@[0] != "Equal"@[0]);
    }
    if i == 4 && j == 9 {
        reveal_strlit("Quote");
        reveal_strlit("Minus");
        assert("Quote"@[0] != "Minus"@[0]);
    }
    if i == 4 && j == 10 {
        reveal_strlit("Quote");
        reveal_strlit("Backquote");
        assert("Quote"@.len() != "Backquote"@.len());
    }
    if i == 5 && j == 6 {
        reveal_strlit("BracketLeft");
        reveal_strlit("BracketRight");
        assert("BracketLeft"@.len() != "BracketRight"@.len());
    }
    if i == 5 && j == 7 {
        reveal_strlit("BracketLeft");
        reveal_strlit("Backslash");
        assert("BracketLeft"@.len() != "Backslash"@.len());
    }
    if i == 5 && j == 8 {
        reveal_strlit("BracketLeft");
        reveal_strlit("Equal");
        assert("BracketLeft"@.len() != "Equal"@.len());
    }
    if i == 5 && j == 9 {
        reveal_strlit("BracketLeft");
        reveal_strlit("Minus");
        assert("BracketLeft"@.len() != "Minus"@.len());
    }
    if i == 5 && j == 10 {
        reveal_strlit("BracketLeft");
        reveal_strlit("Backquote");
        assert("BracketLeft"@.len() != "Backquote"@.len());
    }
    if i == 6 && j == 7 {
        reveal_strlit("BracketRight");
        reveal_strlit("Backslash");
        assert("BracketRight"@.len() != "Backslash"@.len());
    }
    if i == 6 && j == 8 {
        reveal_strlit("BracketRight");
        reveal_strlit("Equal");
        assert("BracketRight"@.len() != "Equal"@.len());
    }
    if i == 6 && j == 9 {
        reveal_strlit("BracketRight");
        reveal_strlit("Minus");
        assert("BracketRight"@.len() != "Minus"@.len());
    }
    if i == 6 && j == 10 {
        reveal_strlit("BracketRight");
        reveal_strlit("Backquote");
        assert("BracketRight"@.len() != "Backquote"@.len());
    }
    if i == 7 && j == 8 {
        reveal_strlit("Backslash");
        reveal_strlit("Equal");
        assert("Backslash"@.len() != "Equal"@.len());
    }
    if i == 7 && j == 9 {
        reveal_strlit("Backslash");
        reveal_strlit("Minus");
        assert("Backslash"@.len() != "Minus"@.len());
    }
    if i == 7 && j == 10 {
        reveal_strlit("Backslash");
        reveal_strlit("Backquote");
        assert("Backslash"@[4] != "Backquote"@[4]);
    }
    if i == 8 && j == 9 {
        reveal_strlit("Equal");
        reveal_strlit("Minus");
        assert("Equal"@[0] != "Minus"@[0]);
    }
    if i == 8 && j == 10 {
        reveal_strlit("Equal");
        reveal_strlit("Backquote");
        assert("Equal"@.len() != "Backquote"@.len());
    }
    if i == 9 && j == 10 {
        reveal_strlit("Minus");
        reveal_strlit("Backquote");
        assert("Minus"@.len() != "Backquote"@.len());
    }
}

/// Each punctuation key becomes the Code name of the key that types it (`.`
/// is `Period`), so two different punctuation keys never get the same name;
/// in a shortcut `m+p` the punctuation key gets that name while the
/// modifier `m` is normalised on its own.
pub proof fn lemma_punctuation_keys_get_code_names(m: Seq<char>)
    requires
        !m.contains('+'),
    ensures
        forall|i: int|
            0 <= i < punctuation_codes().len() ==> normalized_key(
                seq![(#[trigger] punctuation_codes()[i]).0],
            ) == punctuation_codes()[i].1,
        forall|i: int, j: int|
            0 <= i < j < punctuation_codes().len() ==> normalized_key(
                seq![(#[trigger] punctuation_codes()[i]).0],
            ) != normalized_key(seq![(#[trigger] punctuation_codes()[j]).0]),
        forall|i: int|
            0 <= i < punctuation_codes().len() ==> normalized_shortcut(
                m + "+"@ + seq![(#[trigger] punctuation_codes()[i]).0],
            ) == normalized_key(m) + "+"@ + punctuation_codes()[i].1,
{
    let pc = punctuation_codes();
    assert forall|i: int| 0 <= i < pc.len() implies normalized_key(seq![(#[trigger] pc[i]).0])
        == pc[i].1 by {
        let k = seq![pc[i].0];
        assert(punctuation_name(k) == Some(pc[i].1));
    }
    assert forall|i: int, j: int| 0 <= i < j < pc.len() implies normalized_key(
        seq![(#[trigger] pc[i]).0],
    ) != normalized_key(seq![(#[trigger] pc[j]).0]) by {
        assert(normalized_key(seq![pc[i].0]) == pc[i].1);
        assert(normalized_key(seq![pc[j].0]) == pc[j].1);
        lemma_code_names_distinct(i, j);
    }
    reveal_strlit("+");
    assert forall|i: int| 0 <= i < pc.len() implies normalized_shortcut(
        m + "+"@ + seq![(#[trigger] pc[i]).0],
    ) == normalized_key(m) + "+"@ + pc[i].1 by {
        let q = seq![pc[i].0];
        assert(!q.contains('+')) by {
            assert(q.len() == 1);
            assert(q[0] != '+');
        }
        assert(m + "+"@ + q == m + seq!['+'] + q);
        lemma_split_two(m, q, '+');
        let parts = split(m + "+"@ + q, '+');
        assert(parts.map_values(|k: Seq<char>| normalized_key(k)) =~= seq![
            normalized_key(m),
            normalized_key(q),
        ]);
        let names = seq![normalized_key(m), normalized_key(q)];
        assert(names.drop_last() =~= seq![normalized_key(m)]);
        assert(join(names, "+"@) == join(names.drop_last(), "+"@) + "+"@ + names.last());
        assert(normalized_key(q) == pc[i].1);
    }
}

/// The modifier and space names that are matched whatever their letter
/// case, each with the name the shortcut registry expects.
pub open spec fn modifier_aliases() -> Seq<(Seq<char>, Seq<char>)> {
    seq![
        ("cmd"@, "CommandOrControl"@),
        ("ctrl"@, "CommandOrControl"@),
        ("command"@, "CommandOrControl"@),
        ("meta"@, "CommandOrControl"@),
        ("super"@, "CommandOrControl"@),
        ("control"@, "Control"@),
        ("option"@, "Alt"@),
        ("alt"@, "Alt"@),
        ("shift"@, "Shift"@),
        ("space"@, "Space"@),
    ]
}

/// The alias names are different texts.
proof fn lemma_alias_literals_differ()
    ensures
        "ctrl"@ != "cmd"@,
        "command"@ != "cmd"@,
        "command"@ != "ctrl"@,
        "meta"@ != "cmd"@,
        "meta"@ != "ctrl"@,
        "meta"@ != "command"@,
        "super"@ != "cmd"@,
        "super"@ != "ctrl"@,
        "super"@ != "command"@,
        "super"@ != "meta"@,
        "control"@ != "cmd"@,
        "control"@ != "ctrl"@,
        "control"@ != "command"@,
        "control"@ != "meta"@,
        "control"@ != "super"@,
        "option"@ != "cmd"@,
        "option"@ != "ctrl"@,
        "option"@ != "command"@,
        "option"@ != "meta"@,
        "option"@ != "super"@,
        "option"@ != "control"@,
        "alt"@ != "cmd"@,
        "alt"@ != "ctrl"@,
        "alt"@ != "command"@,
        "alt"@ != "meta"@,
        "alt"@ != "super"@,
        "alt"@ != "control"@,
        "alt"@ != "option"@,
        "shift"@ != "cmd"@,
        "shift"@ != "ctrl"@,
        "shift"@ != "command"@,
        "shift"@ != "meta"@,
        "shift"@ != "super"@,
        "shift"@ != "control"@,
        "shift"@ != "option"@,
        "shift"@ != "alt"@,
        "space"@ != "cmd"@,
        "space"@ != "ctrl"@,
        "space"@ != "command"@,
        "space"@ != "meta"@,
        "space"@ != "super"@,
        "space"@ != "control"@,
        "space"@ != "option"@,
        "space"@ != "alt"@,
        "space"@ != "shift"@,
{
    reveal_strlit("cmd");
    reveal_strlit("ctrl");
    reveal_strlit("command");
    reveal_strlit("meta");
    reveal_strlit("super");
    reveal_strlit("control");
    reveal_strlit("option");
    reveal_strlit("alt");
    reveal_strlit("shift");
    reveal_strlit("space");
    assert("ctrl"@.len() != "cmd"@.len());
    assert("command"@.len() != "cmd"@.len());
    assert("command"@.len() != "ctrl"@.len());
    assert("meta"@.len() != "cmd"@.len());
    assert("meta"@[0] != "ctrl"@[0]);
    assert("meta"@.len() != "command"@.len());
    assert("super"@.len() != "cmd"@.len());
    assert("super"@.len() != "ctrl"@.len());
    assert("super"@.len() != "command"@.len());
    assert("super"@.len() != "meta"@.len());
    assert("control"@.len() != "cmd"@.len());
    assert("control"@.len() != "ctrl"@.len());
    assert("control"@[2] != "command"@[2]);
    assert("control"@.len() != "meta"@.len());
    assert("control"@.len() != "super"@.len());
    assert("option"@.len() != "cmd"@.len());
    assert("option"@.len() != "ctrl"@.len());
    assert("option"@.len() != "command"@.len());
    assert("option"@.len() != "meta"@.len());
    assert("option"@.len() != "super"@.len());
    assert("option"@.len() != "control"@.len());
    assert("alt"@[0] != "cmd"@[0]);
    assert("alt"@.len() != "ctrl"@.len());
    assert("alt"@.len() != "command"@.len());
    assert("alt"@.len() != "meta"@.len());
    assert("alt"@.len() != "super"@.len());
    assert("alt"@.len() != "control"@.len());
    assert("alt"@.len() != "option"@.len());
    assert("shift"@.len() != "cmd"@.len());
    assert("shift"@.len() != "ctrl"@.len());
    assert("shift"@.len() != "command"@.len());
    assert("shift"@.len() != "meta"@.len());
    assert("shift"@[1] != "super"@[1]);
    assert("shift"@.len() != "control"@.len());
    assert("shift"@.len() != "option"@.len());
    assert("shift"@.len() != "alt"@.len());
    assert("space"@.len() != "cmd"@.len());
    assert("space"@.len() != "ctrl"@.len());
    assert("space"@.len() != "command"@.len());
    assert("space"@.len() != "meta"@.len());
    assert("space"@[1] != "super"@[1]);
    assert("space"@.len() != "control"@.len());
    assert("space"@.len() != "option"@.len());
    assert("space"@.len() != "alt"@.len());
    assert("space"@[1] != "shift"@[1]);
}

/// A key whose lower-case form is one of the aliases (`Cmd`, `CTRL`,
/// `Option`, ...) is normalised to the alias's registry name, whatever
/// `Key::from_str` makes of it; only `Control` stays apart from the command
/// key.
pub proof fn lemma_modifier_aliases_are_normalised(key: Seq<char>)
    requires
        key.len() != 1,
    ensures
        forall|i: int|
            0 <= i < modifier_aliases().len() && unicode_lowercase(key)
                == (#[trigger] modifier_aliases()[i]).0 ==> normalized_key(key)
                == modifier_aliases()[i].1,
{
    lemma_alias_literals_differ();
    let t = modifier_aliases();
    assert forall|i: int|
        0 <= i < t.len() && unicode_lowercase(key) == (#[trigger] t[i]).0 implies normalized_key(
        key,
    ) == t[i].1 by {
        if i == 0 {
            assert(t[0] == ("cmd"@, "CommandOrControl"@));
            assert(punctuation_name(key) is None);
            assert(lowercase_alias("cmd"@) == Some("CommandOrControl"@));
        }
        else if i == 1 {
            assert(t[1] == ("ctrl"@, "CommandOrControl"@));
            assert(punctuation_name(key) is None);
            assert(lowercase_alias("ctrl"@) == Some("CommandOrControl"@));
        }
        else if i == 2 {
            assert(t[2] == ("command"@, "CommandOrControl"@));
            assert(punctuation_name(key) is None);
            assert(lowercase_alias("command"@) == Some("CommandOrControl"@));
        }
        else if i == 3 {
            assert(t[3] == ("meta"@, "CommandOrControl"@));
            assert(punctuation_name(key) is None);
            assert(lowercase_alias("meta"@) == Some("CommandOrControl"@));
        }
        else if i == 4 {
            assert(t[4] == ("super"@, "CommandOrControl"@));
            assert(punctuation_name(key) is None);
            assert(lowercase_alias("super"@) == Some("CommandOrControl"@));
        }
        else if i == 5 {
            assert(t[5] == ("control"@, "Control"@));
            assert(punctuation_name(key) is None);
            assert(lowercase_alias("control"@) == Some("Control"@));
        }
        else if i == 6 {
            assert(t[6] == ("option"@, "Alt"@));
            assert(punctuation_name(key) is None);
            assert(lowercase_alias("option"@) == Some("Alt"@));
        }
        else if i == 7 {
            assert(t[7] == ("alt"@, "Alt"@));
            assert(punctuation_name(key) is None);
            assert(lowercase_alias("alt"@) == Some("Alt"@));
        }
        else if i == 8 {
            assert(t[8] == ("shift"@, "Shift"@));
            assert(punctuation_name(key) is None);
            assert(lowercase_alias("shift"@) == Some("Shift"@));
        }
        else if i == 9 {
            assert(t[9] == ("space"@, "Space"@));
            assert(punctuation_name(key) is None);
            assert(lowercase_alias("space"@) == Some("Space"@));
        }
    }
}

/// The canonical name for `lower` if it is a modifier or space alias.
fn alias_for(lower: &str) -> (r: Option<&'static str>)
    ensures
        match r {
            Some(n) => lowercase_alias(lower@) == Some(n@),
            None => lowercase_alias(lower@).is_none(),
        },
{
    if str_eq(lower, "cmd") || str_eq(lower, "ctrl") || str_eq(lower, "command") || str_eq(
        lower,
        "meta",
    ) || str_eq(lower, "super") {
        Some("CommandOrControl")
    } else if str_eq(lower, "control") {
        Some("Control")
    } else if str_eq(lower, "option") || str_eq(lower, "alt") {
        Some("Alt")
    } else if str_eq(lower, "shift") {
        Some("Shift")
    } else if str_eq(lower, "space") {
        Some("Space")
    } else {
        None
    }
}

/// The code name for a punctuation key.
fn punctuation_for(key: &str) -> (r: Option<&'static str>)
    ensures
        match r {
            Some(n) => punctuation_name(key@) == Some(n@),
            None => punctuation_name(key@).is_none(),
        },
{
    let v = chars_of(key);
    if v.len() != 1 {
        return None;
    }
    match v[0] {
        ',' => Some("Comma"),
        '.' => Some("Period"),
        '/' => Some("Slash"),
        ';' => Some("Semicolon"),
        '\'' => Some("Quote"),
        '[' => Some("BracketLeft"),
        ']' => Some("BracketRight"),
        '\\' => Some("Backslash"),
        '=' => Some("Equal"),
        '-' => Some("Minus"),
        '`' => Some("Backquote"),
        _ => None,
    }
}

/// The name of a key that `Key::from_str` did not recognise.
fn unparsed_name(key: &str) -> (r: String)
    ensures
        r@ == unparsed_key_name(key@),
{
    if str_eq(key, "Return") {
        "Enter".to_owned()
    } else if str_eq(key, "ArrowUp") {
        "Up".to_owned()
    } else if str_eq(key, "ArrowDown") {
        "Down".to_owned()
    } else if str_eq(key, "ArrowLeft") {
        "Left".to_owned()
    } else if str_eq(key, "ArrowRight") {
        "Right".to_owned()
    } else if str_eq(key, "Cmd") || str_eq(key, "Ctrl") || str_eq(key, "Command") || str_eq(
        key,
        "Super",
    ) || str_eq(key, "Meta") {
        "CommandOrControl".to_owned()
    } else if str_eq(key, "Option") {
        "Alt".to_owned()
    } else {
        let v = chars_of(key);
        if v.len() == 1 && (('a' <= v[0] && v[0] <= 'z') || ('A' <= v[0] && v[0] <= 'Z')) {
            // A one-character key is ASCII here, where `to_uppercase` is ASCII upper-casing.
            let mut r = String::new();
            crate::text::push_char(&mut r, crate::text::char_ascii_upper(v[0]));
            assert(r@ =~= seq![crate::text::ascii_upper(key@[0])]);
            r
        } else {
            key.to_owned()
        }
    }
}

/// Normalise a single key name to the form the shortcut registry expects.
pub fn normalize_single_key(key: &str) -> (r: String)
    ensures
        r@ == normalized_key(key@),
{
    if let Some(n) = punctuation_for(key) {
        return n.to_owned();
    }
    let lower = to_lowercase(key);
    if let Some(n) = alias_for(lower.as_str()) {
        return n.to_owned();
    }
    match parse_key(key) {
        Some(KeyName::Character) => if str_eq(key, " ") {
            "Space".to_owned()
        } else {
            key.to_owned()
        },
        Some(KeyName::ArrowDown) => "Down".to_owned(),
        Some(KeyName::ArrowLeft) => "Left".to_owned(),
        Some(KeyName::ArrowRight) => "Right".to_owned(),
        Some(KeyName::ArrowUp) => "Up".to_owned(),
        Some(KeyName::Other) => key.to_owned(),
        None => unparsed_name(key),
    }
}

/// Normalize keyboard shortcut keys for cross-platform compatibility:
/// every `+`-separated key is normalised and the keys are joined with `+`.
pub fn normalize_shortcut_keys(shortcut: &str) -> (r: String)
    ensures
        r@ == normalized_shortcut(shortcut@),
{
    let parts = split_str(shortcut, '+');
    let ghost pieces = split(shortcut@, '+');
    let mut normalized: Vec<String> = Vec::new();
    let mut i: usize = 0;
    while i < parts.len()
        invariant
            i <= parts@.len(),
            parts@.len() == pieces.len(),
            forall|j: int| 0 <= j < parts@.len() ==> (#[trigger] parts@[j])@ == pieces[j],
            normalized@.len() == i,
            forall|j: int| 0 <= j < i ==> (#[trigger] normalized@[j])@ == normalized_key(pieces[j]),
        decreases parts@.len() - i,
    {
        normalized.push(normalize_single_key(parts[i].as_str()));
        i = i + 1;
    }
    let r = crate::text::join_strings(&normalized, "+");
    assert(normalized@.map_values(|p: String| p@) =~= pieces.map_values(
        |k: Seq<char>| normalized_key(k),
    ));
    r
}

/// Validation rules for key combinations.
#[derive(Debug, Clone)]
pub struct KeyValidationRules {
    pub min_keys: usize,
    pub max_keys: usize,
    pub require_modifier: bool,
    pub require_modifier_for_multi_key: bool,
}

impl KeyValidationRules {
    /// Standard hotkey rules (2-5 keys, must include at least one modifier).
    pub fn standard() -> (r: Self)
        ensures
            r.min_keys == 2,
            r.max_keys == 5,
            r.require_modifier,
            r.require_modifier_for_multi_key,
    {
        KeyValidationRules {
            min_keys: 2,
            max_keys: 5,
            require_modifier: true,
            require_modifier_for_multi_key: true,
        }
    }
}

/// Whether a key name is a modifier.
pub open spec fn is_modifier(k: Seq<char>) -> bool {
    k == "CommandOrControl"@ || k == "Shift"@ || k == "Alt"@ || k == "Control"@ || k
        == "Command"@ || k == "Cmd"@ || k == "Ctrl"@ || k == "Option"@ || k == "Meta"@ || k
        == "Super"@
}

/// Whether a key name is acceptable: any non-empty name is, since the
/// registration of the shortcut has the final word on it.
pub open spec fn is_valid_key_name(k: Seq<char>) -> bool {
    k.len() > 0
}

/// Whether some part is a modifier.
pub open spec fn has_modifier(parts: Seq<Seq<char>>) -> bool {
    exists|i: int| 0 <= i < parts.len() && is_modifier(#[trigger] parts[i])
}

/// Whether every part is a valid key name.
pub open spec fn all_valid(parts: Seq<Seq<char>>) -> bool {
    forall|i: int| 0 <= i < parts.len() ==> is_valid_key_name(#[trigger] parts[i])
}

/// The error for a shortcut split into `parts` under `rules`, or `None` when it is valid.
pub open spec fn combination_error(
    parts: Seq<Seq<char>>,
    min_keys: usize,
    max_keys: usize,
    require_modifier: bool,
    require_modifier_for_multi_key: bool,
) -> Option<Seq<char>> {
    if parts.len() < min_keys {
        Some("Minimum "@ + decimal(min_keys as nat) + " key(s) required"@)
    } else if parts.len() > max_keys {
        Some("Maximum "@ + decimal(max_keys as nat) + " keys allowed in combination"@)
    } else if require_modifier && !has_modifier(parts) {
        Some("At least one modifier key is required"@)
    } else if require_modifier && parts.len() > 0 && !is_modifier(parts[0]) {
        Some("Keyboard shortcuts must start with a modifier key (Cmd/Ctrl, Alt, or Shift)"@)
    } else if require_modifier_for_multi_key && !has_modifier(parts) && parts.len() > 1 {
        Some("Multi-key shortcuts must include at least one modifier key"@)
    } else if !all_valid(parts) {
        Some("Invalid key: "@)
    } else {
        None
    }
}

/// The modifier key names: the command key and its aliases (`Command`,
/// `Cmd`, `Ctrl`, `Meta`, `Super`), `Control`, `Shift`, and `Alt` with its
/// macOS name `Option`.
pub open spec fn modifier_key_names() -> Seq<Seq<char>> {
    seq![
        "CommandOrControl"@,
        "Command"@,
        "Cmd"@,
        "Ctrl"@,
        "Meta"@,
        "Super"@,
        "Control"@,
        "Shift"@,
        "Alt"@,
        "Option"@,
    ]
}

/// `is_modifier` holds of exactly the listed modifier names, none of them empty.
proof fn lemma_modifier_listed(k: Seq<char>)
    ensures
        is_modifier(k) <==> modifier_key_names().contains(k),
        is_modifier(k) ==> k.len() > 0,
{
    let names = modifier_key_names();
    assert(is_modifier(k) <==> names.contains(k)) by {
        if is_modifier(k) {
            if k == "CommandOrControl"@ { assert(names[0] == k); }
            else if k == "Command"@ { assert(names[1] == k); }
            else if k == "Cmd"@ { assert(names[2] == k); }
            else if k == "Ctrl"@ { assert(names[3] == k); }
            else if k == "Meta"@ { assert(names[4] == k); }
            else if k == "Super"@ { assert(names[5] == k); }
            else if k == "Control"@ { assert(names[6] == k); }
            else if k == "Shift"@ { assert(names[7] == k); }
            else if k == "Alt"@ { assert(names[8] == k); }
            else { assert(names[9] == k); }
        }
    }
    if is_modifier(k) {
        reveal_strlit("CommandOrControl");
        reveal_strlit("Command");
        reveal_strlit("Cmd");
        reveal_strlit("Ctrl");
        reveal_strlit("Meta");
        reveal_strlit("Super");
        reveal_strlit("Control");
        reveal_strlit("Shift");
        reveal_strlit("Alt");
        reveal_strlit("Option");
    }
}

/// The standard rules accept exactly the shortcuts of two to five keys that
/// start with a modifier name and have no empty key.
pub proof fn lemma_standard_rules(parts: Seq<Seq<char>>)
    ensures
        combination_error(parts, 2, 5, true, true).is_none() <==> (2 <= parts.len() <= 5
            && modifier_key_names().contains(parts[0]) && forall|i: int|
            0 <= i < parts.len() ==> (#[trigger] parts[i]).len() > 0),
{
    lemma_modifier_listed(parts[0]);
    if 2 <= parts.len() && modifier_key_names().contains(parts[0]) {
        assert(has_modifier(parts)) by {
            assert(is_modifier(parts[0]));
        }
    }
}

/// Under the standard rules a two-key shortcut `first+key` (neither part
/// holding `+`, the key not empty) is accepted exactly when `first` is a
/// modifier name: `Option+A` is accepted as `Alt+A` is, `A+B` is refused.
pub proof fn lemma_two_key_shortcuts(first: Seq<char>, key: Seq<char>)
    requires
        !first.contains('+'),
        !key.contains('+'),
        key.len() > 0,
    ensures
        combination_error(split(first + "+"@ + key, '+'), 2, 5, true, true).is_none()
            <==> modifier_key_names().contains(first),
{
    reveal_strlit("+");
    assert(first + "+"@ + key == first + seq!['+'] + key);
    lemma_split_two(first, key, '+');
    let parts = seq![first, key];
    lemma_modifier_listed(first);
    if is_modifier(first) {
        assert(has_modifier(parts)) by {
            assert(is_modifier(parts[0]));
        }
        assert(all_valid(parts));
    }
}

/// Whether `key` is a modifier key name.
fn is_modifier_key(key: &str) -> (b: bool)
    ensures
        b == is_modifier(key@),
{
    str_eq(key, "CommandOrControl") || str_eq(key, "Shift") || str_eq(key, "Alt") || str_eq(
        key,
        "Control",
    ) || str_eq(key, "Command") || str_eq(key, "Cmd") || str_eq(key, "Ctrl") || str_eq(
        key,
        "Option",
    ) || str_eq(key, "Meta") || str_eq(key, "Super")
}

/// Check if a key string is valid: any non-empty name is accepted.
pub fn is_valid_key(key: &str) -> (b: bool)
    ensures
        b == is_valid_key_name(key@),
{
    !key.is_empty()
}

/// Validate that a key combination is allowed with default rules.
pub fn validate_key_combination(shortcut: &str) -> (r: Result<(), String>)
    ensures
        match combination_error(split(shortcut@, '+'), 2, 5, true, true) {
            None => r is Ok,
            Some(m) => r matches Err(e) && e@ == m,
        },
{
    validate_key_combination_with_rules(shortcut, &KeyValidationRules::standard())
}

/// Validate that a key combination is allowed with custom rules.
pub fn validate_key_combination_with_rules(shortcut: &str, rules: &KeyValidationRules) -> (r:
    Result<(), String>)
    ensures
        match combination_error(
            split(shortcut@, '+'),
            rules.min_keys,
            rules.max_keys,
            rules.require_modifier,
            rules.require_modifier_for_multi_key,
        ) {
            None => r is Ok,
            Some(m) => r matches Err(e) && e@ == m,
        },
{
    let parts = split_str(shortcut, '+');
    let ghost pieces = split(shortcut@, '+');
    if parts.len() < rules.min_keys {
        let mut m = "Minimum ".to_owned();
        push_str(&mut m, decimal_string(rules.min_keys as u64).as_str());
        push_str(&mut m, " key(s) required");
        return Err(m);
    }
    if parts.len() > rules.max_keys {
        let mut m = "Maximum ".to_owned();
        push_str(&mut m, decimal_string(rules.max_keys as u64).as_str());
        push_str(&mut m, " keys allowed in combination");
        return Err(m);
    }
    let mut has_mod = false;
    let mut i: usize = 0;
    while i < parts.len()
        invariant
            i <= parts@.len(),
            parts@.len() == pieces.len(),
            forall|j: int| 0 <= j < parts@.len() ==> (#[trigger] parts@[j])@ == pieces[j],
            has_mod == exists|j: int| 0 <= j < i && is_modifier(#[trigger] pieces[j]),
        decreases parts@.len() - i,
    {
        if is_modifier_key(parts[i].as_str()) {
            has_mod = true;
        }
        i = i + 1;
    }
    assert(has_mod == has_modifier(pieces));
    if rules.require_modifier && !has_mod {
        return Err("At least one modifier key is required".to_owned());
    }
    if rules.require_modifier && parts.len() > 0 && !is_modifier_key(parts[0].as_str()) {
        return Err(
            "Keyboard shortcuts must start with a modifier key (Cmd/Ctrl, Alt, or Shift)".to_owned(),
        );
    }
    if rules.require_modifier_for_multi_key && !has_mod && parts.len() > 1 {
        return Err("Multi-key shortcuts must include at least one modifier key".to_owned());
    }
    let mut k: usize = 0;
    #[verifier::loop_isolation(false)]
    while k < parts.len()
        invariant
            k <= parts@.len(),
            parts@.len() == pieces.len(),
            forall|j: int| 0 <= j < parts@.len() ==> (#[trigger] parts@[j])@ == pieces[j],
            forall|j: int| 0 <= j < k ==> is_valid_key_name(#[trigger] pieces[j]),
        decreases parts@.len() - k,
    {
        if !is_valid_key(parts[k].as_str()) {
            let mut m = "Invalid key: ".to_owned();
            push_str(&mut m, parts[k].as_str());
            assert(parts@[k as int]@.len() == 0);
            assert(m@ =~= "Invalid key: "@);
            return Err(m);
        }
        k = k + 1;
    }
    Ok(())
}

} // verus!
