//! Printable renderings of keyboard keys.
use vstd::prelude::*;
use vstd::string::StringExecFns;
use crate::codes::KEY_UNKNOWN;

verus! {

/// `s` with a lone `<` or `>` replaced by its markup entity.
pub open spec fn escaped(s: Seq<char>) -> Seq<char> {
    if s == "<"@ {
        "&lt;"@
    } else if s == ">"@ {
        "&gt;"@
    } else {
        s
    }
}

/// The spacing glyph for a dead key's symbolic name; any other text is kept.
pub open spec fn dead_key_glyph(s: Seq<char>) -> Seq<char> {
    if s == "dead_circumflex"@ {
        "^"@
    } else if s == "dead_acute"@ {
        "´"@
    } else if s == "dead_grave"@ {
        "`"@
    } else if s == "dead_diaeresis"@ {
        "¨"@
    } else if s == "dead_belowdot"@ {
        "."@
    } else {
        s
    }
}

/// The rendering of `key` from what the keymap gives for it: the text it
/// types (`utf8`), or its symbol name when it types nothing, with dead keys
/// shown by their spacing glyph. The placeholder key renders as nothing.
pub open spec fn key_glyph(key: u16, utf8: Seq<char>, name: Seq<char>) -> Seq<char> {
    if key == KEY_UNKNOWN {
        Seq::empty()
    } else if utf8.len() == 0 {
        dead_key_glyph(name)
    } else {
        dead_key_glyph(utf8)
    }
}

/// Escapes a single `<` or `>` for use in markup text.
pub fn pango_escape(character: &str) -> (r: String)
    ensures
        r@ == escaped(character@),
{
    let s = character.to_owned();
    if s == String::from_str("<") {
        String::from_str("&lt;")
    } else if s == String::from_str(">") {
        String::from_str("&gt;")
    } else {
        s
    }
}

fn dead_key_text(s: String) -> (r: String)
    ensures
        r@ == dead_key_glyph(s@),
{
    if s == String::from_str("dead_circumflex") {
        String::from_str("^")
    } else if s == String::from_str("dead_acute") {
        String::from_str("´")
    } else if s == String::from_str("dead_grave") {
        String::from_str("`")
    } else if s == String::from_str("dead_diaeresis") {
        String::from_str("¨")
    } else if s == String::from_str("dead_belowdot") {
        String::from_str(".")
    } else {
        s
    }
}

/// The rendering of `key`, given the text the keymap types for it (`utf8`)
/// and its symbol name (`name`).
pub fn keysym_glyph(key: u16, utf8: &str, name: &str) -> (r: String)
    ensures
        r@ == key_glyph(key, utf8@, name@),
{
    if key == KEY_UNKNOWN {
        return String::new();
    }
    if utf8.is_empty() {
        dead_key_text(name.to_owned())
    } else {
        dead_key_text(utf8.to_owned())
    }
}

} // verus!
