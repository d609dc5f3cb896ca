//! Named character references and the legacy compatibility rule for
//! references written without a terminating semicolon.
//!
//! The table below is the slice of the reference table that this engine
//! resolves: the old HTML entities, which the legacy rule allows without a
//! semicolon, and a few typographic ones, which require it. A reference
//! missing its semicolon still resolves when the legacy rule allows it, but
//! a parse error is recorded; inside an attribute value the legacy rule is
//! blocked when the next character is alphanumeric or an equals sign.

use crate::text::str_eq;
use vstd::prelude::*;

verus! {

/// The codepoint a reference name resolves to, if the table knows the name.
/// Names are matched case-sensitively.
pub open spec fn spec_entity(name: Seq<char>) -> Option<char> {
    if name == "amp"@ || name == "AMP"@ {
        Some('&')
    } else if name == "lt"@ || name == "LT"@ {
        Some('<')
    } else if name == "gt"@ || name == "GT"@ {
        Some('>')
    } else if name == "quot"@ || name == "QUOT"@ {
        Some('"')
    } else if name == "nbsp"@ {
        Some('\u{a0}')
    } else if name == "iexcl"@ {
        Some('\u{a1}')
    } else if name == "cent"@ {
        Some('\u{a2}')
    } else if name == "pound"@ {
        Some('\u{a3}')
    } else if name == "yen"@ {
        Some('\u{a5}')
    } else if name == "sect"@ {
        Some('\u{a7}')
    } else if name == "copy"@ {
        Some('\u{a9}')
    } else if name == "laquo"@ {
        Some('\u{ab}')
    } else if name == "reg"@ {
        Some('\u{ae}')
    } else if name == "deg"@ {
        Some('\u{b0}')
    } else if name == "plusmn"@ {
        Some('\u{b1}')
    } else if name == "middot"@ {
        Some('\u{b7}')
    } else if name == "para"@ {
        Some('\u{b6}')
    } else if name == "raquo"@ {
        Some('\u{bb}')
    } else if name == "frac12"@ {
        Some('\u{bd}')
    } else if name == "times"@ {
        Some('\u{d7}')
    } else if name == "divide"@ {
        Some('\u{f7}')
    } else if name == "szlig"@ {
        Some('\u{df}')
    } else if name == "agrave"@ {
        Some('\u{e0}')
    } else if name == "eacute"@ {
        Some('\u{e9}')
    } else if name == "apos"@ {
        Some('\'')
    } else if name == "trade"@ {
        Some('\u{2122}')
    } else if name == "hellip"@ {
        Some('\u{2026}')
    } else if name == "ndash"@ {
        Some('\u{2013}')
    } else if name == "mdash"@ {
        Some('\u{2014}')
    } else if name == "bull"@ {
        Some('\u{2022}')
    } else if name == "lsquo"@ {
        Some('\u{2018}')
    } else if name == "rsquo"@ {
        Some('\u{2019}')
    } else if name == "ldquo"@ {
        Some('\u{201c}')
    } else if name == "rdquo"@ {
        Some('\u{201d}')
    } else {
        None
    }
}

/// Whether the legacy rule lets the name resolve without a semicolon.
/// It does for the old HTML entities; the typographic ones need the
/// semicolon.
pub open spec fn spec_entity_legacy(name: Seq<char>) -> bool {
    ||| name == "amp"@
    ||| name == "AMP"@
    ||| name == "lt"@
    ||| name == "LT"@
    ||| name == "gt"@
    ||| name == "GT"@
    ||| name == "quot"@
    ||| name == "QUOT"@
    ||| name == "nbsp"@
    ||| name == "iexcl"@
    ||| name == "cent"@
    ||| name == "pound"@
    ||| name == "yen"@
    ||| name == "sect"@
    ||| name == "copy"@
    ||| name == "laquo"@
    ||| name == "reg"@
    ||| name == "deg"@
    ||| name == "plusmn"@
    ||| name == "middot"@
    ||| name == "para"@
    ||| name == "raquo"@
    ||| name == "frac12"@
    ||| name == "times"@
    ||| name == "divide"@
    ||| name == "szlig"@
    ||| name == "agrave"@
    ||| name == "eacute"@
}

/// Table lookup: the codepoint and whether the legacy rule applies.
#[verifier::rlimit(30)]
pub fn lookup_entity(name: &str) -> (r: Option<(char, bool)>)
    ensures
        r is None <==> spec_entity(name@) is None,
        spec_entity(name@) is Some ==> r == Some(
            (spec_entity(name@)->Some_0, spec_entity_legacy(name@)),
        ),
{
    if str_eq(name, "amp") || str_eq(name, "AMP") {
        Some(('&', true))
    } else if str_eq(name, "lt") || str_eq(name, "LT") {
        Some(('<', true))
    } else if str_eq(name, "gt") || str_eq(name, "GT") {
        Some(('>', true))
    } else if str_eq(name, "quot") || str_eq(name, "QUOT") {
        Some(('"', true))
    } else if str_eq(name, "nbsp") {
        Some(('\u{a0}', true))
    } else if str_eq(name, "iexcl") {
        Some(('\u{a1}', true))
    } else if str_eq(name, "cent") {
        Some(('\u{a2}', true))
    } else if str_eq(name, "pound") {
        Some(('\u{a3}', true))
    } else if str_eq(name, "yen") {
        Some(('\u{a5}', true))
    } else if str_eq(name, "sect") {
        Some(('\u{a7}', true))
    } else if str_eq(name, "copy") {
        Some(('\u{a9}', true))
    } else if str_eq(name, "laquo") {
        Some(('\u{ab}', true))
    } else if str_eq(name, "reg") {
        Some(('\u{ae}', true))
    } else if str_eq(name, "deg") {
        Some(('\u{b0}', true))
    } else if str_eq(name, "plusmn") {
        Some(('\u{b1}', true))
    } else if str_eq(name, "middot") {
        Some(('\u{b7}', true))
    } else if str_eq(name, "para") {
        Some(('\u{b6}', true))
    } else if str_eq(name, "raquo") {
        Some(('\u{bb}', true))
    } else if str_eq(name, "frac12") {
        Some(('\u{bd}', true))
    } else if str_eq(name, "times") {
        Some(('\u{d7}', true))
    } else if str_eq(name, "divide") {
        Some(('\u{f7}', true))
    } else if str_eq(name, "szlig") {
        Some(('\u{df}', true))
    } else if str_eq(name, "agrave") {
        Some(('\u{e0}', true))
    } else if str_eq(name, "eacute") {
        Some(('\u{e9}', true))
    } else if str_eq(name, "apos") {
        Some(('\'', false))
    } else if str_eq(name, "trade") {
        Some(('\u{2122}', false))
    } else if str_eq(name, "hellip") {
        Some(('\u{2026}', false))
    } else if str_eq(name, "ndash") {
        Some(('\u{2013}', false))
    } else if str_eq(name, "mdash") {
        Some(('\u{2014}', false))
    } else if str_eq(name, "bull") {
        Some(('\u{2022}', false))
    } else if str_eq(name, "lsquo") {
        Some(('\u{2018}', false))
    } else if str_eq(name, "rsquo") {
        Some(('\u{2019}', false))
    } else if str_eq(name, "ldquo") {
        Some(('\u{201c}', false))
    } else if str_eq(name, "rdquo") {
        Some(('\u{201d}', false))
    } else {
        None
    }
}

/// How a named reference comes out: resolved to a character, with or
/// without its semicolon, or not resolved at all.
pub enum RefOutcome {
    Resolved { ch: char, missing_semicolon: bool },
    NotResolved,
}

/// Decides a named reference. A terminated reference known to the table
/// always resolves cleanly. One without its semicolon still resolves when
/// the legacy rule allows the name and, inside an attribute value, the
/// character after the name is not alphanumeric or an equals sign; such a
/// resolution carries the missing-semicolon flag, which the tokenizer
/// records as a parse error.
pub fn named_ref_outcome(
    name: &str,
    terminated: bool,
    in_attribute: bool,
    next_blocks: bool,
) -> (out: RefOutcome)
    ensures
        spec_entity(name@) is None ==> out is NotResolved,
        spec_entity(name@) is Some && terminated ==> out == (RefOutcome::Resolved {
            ch: spec_entity(name@)->Some_0,
            missing_semicolon: false,
        }),
        spec_entity(name@) is Some && !terminated && !spec_entity_legacy(name@) ==> out
            is NotResolved,
        spec_entity(name@) is Some && !terminated && spec_entity_legacy(name@) && in_attribute
            && next_blocks ==> out is NotResolved,
        spec_entity(name@) is Some && !terminated && spec_entity_legacy(name@) && !(in_attribute
            && next_blocks) ==> out == (RefOutcome::Resolved {
            ch: spec_entity(name@)->Some_0,
            missing_semicolon: true,
        }),
{
    match lookup_entity(name) {
        Some((ch, legacy)) => {
            if terminated {
                RefOutcome::Resolved { ch, missing_semicolon: false }
            } else if legacy && !(in_attribute && next_blocks) {
                RefOutcome::Resolved { ch, missing_semicolon: true }
            } else {
                RefOutcome::NotResolved
            }
        },
        None => RefOutcome::NotResolved,
    }
}

/// A scalar value a numeric reference may stand for: in range and not a
/// surrogate and not the null character.
pub open spec fn spec_valid_numeric(n: u32) -> bool {
    n != 0 && n <= 0x10ffff && !(0xd800 <= n && n <= 0xdfff)
}

/// Relies on `char::from_u32`: `Some` exactly for values that are not
/// surrogates and lie within the scalar range, and the returned character
/// has exactly the given value.
#[verifier::external_body]
fn char_from_u32(n: u32) -> (r: Option<char>)
    ensures
        r is Some <==> (n <= 0x10ffff && !(0xd800 <= n && n <= 0xdfff)),
        r is Some ==> r->0 as u32 == n,
{
    char::from_u32(n)
}

/// The character a numeric reference produces: the codepoint itself when
/// it is a valid scalar other than null, and the replacement character,
/// flagged as an error, otherwise.
pub fn numeric_ref_char(n: u32) -> (r: (char, bool))
    ensures
        spec_valid_numeric(n) ==> r.0 as u32 == n && r.1 == false,
        !spec_valid_numeric(n) ==> r.0 == '\u{fffd}' && r.1 == true,
{
    if n == 0 {
        ('\u{fffd}', true)
    } else {
        match char_from_u32(n) {
            Some(c) => (c, false),
            None => ('\u{fffd}', true),
        }
    }
}

} // verus!
