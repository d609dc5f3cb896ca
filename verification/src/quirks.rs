//! Quirks-mode classification of DOCTYPE declarations.
//!
//! A document is rendered in one of three modes, decided once, when the tree
//! builder processes the DOCTYPE token (or reaches the body without one).
//! The decision is a pure function of the token's name, public identifier,
//! system identifier and force-quirks flag. The name must equal `"html"`
//! exactly; the two identifiers are lower-cased first and then matched
//! against fixed tables of legacy DTD identifiers, so identifier matching is
//! case-insensitive while the name is not.

use cow_utils::CowUtils;
use vstd::prelude::*;
use crate::text::{spec_starts_with, starts_with_str, str_eq};

verus! {

/// Document-wide rendering mode selected from the DOCTYPE declaration.
#[derive(Clone, Copy, Debug, PartialEq, Eq, Structural)]
pub enum QuirksMode {
    NoQuirks,
    LimitedQuirks,
    Quirks,
}

/// The lower-casing that `cow_to_lowercase` performs: a fixed function of
/// the character sequence alone.
pub uninterp spec fn lower_of(s: Seq<char>) -> Seq<char>;

/// Relies on `cow_utils::CowUtils::cow_to_lowercase`, which by its
/// documentation returns the same characters `str::to_lowercase` would:
/// a result that depends on the input characters alone.
#[verifier::external_body]
fn fold_lower(s: &str) -> (r: String)
    ensures
        r@ == lower_of(s@),
        s@.len() == 0 ==> r@.len() == 0,
{
    s.cow_to_lowercase().into_owned()
}

/// A (lower-cased) public identifier that forces quirks mode when it is
/// exactly one of three legacy strings.
pub open spec fn is_quirks_public_id_match(p: Seq<char>) -> bool {
    ||| p == "-//w3o//dtd w3 html strict 3.0//en//"@
    ||| p == "-/w3c/dtd html 4.0 transitional/en"@
    ||| p == "html"@
}

/// A (lower-cased) public identifier that forces quirks mode when it starts
/// with one of the legacy DTD prefixes fixed by the standard.
pub open spec fn has_quirks_public_id_prefix(p: Seq<char>) -> bool {
    ||| spec_starts_with(p, "+//silmaril//dtd html pro v0r11 19970101//"@)
    ||| spec_starts_with(p, "-//as//dtd html 3.0 aswedit + extensions//"@)
    ||| spec_starts_with(p, "-//advasoft ltd//dtd html 3.0 aswedit + extensions//"@)
    ||| spec_starts_with(p, "-//ietf//dtd html 2.0 level 1//"@)
    ||| spec_starts_with(p, "-//ietf//dtd html 2.0 level 2//"@)
    ||| spec_starts_with(p, "-//ietf//dtd html 2.0 strict level 1//"@)
    ||| spec_starts_with(p, "-//ietf//dtd html 2.0 strict level 2//"@)
    ||| spec_starts_with(p, "-//ietf//dtd html 2.0 strict//"@)
    ||| spec_starts_with(p, "-//ietf//dtd html 2.0//"@)
    ||| spec_starts_with(p, "-//ietf//dtd html 2.1e//"@)
    ||| spec_starts_with(p, "-//ietf//dtd html 3.0//"@)
    ||| spec_starts_with(p, "-//ietf//dtd html 3.2 final//"@)
    ||| spec_starts_with(p, "-//ietf//dtd html 3.2//"@)
    ||| spec_starts_with(p, "-//ietf//dtd html 3//"@)
    ||| spec_starts_with(p, "-//ietf//dtd html level 0//"@)
    ||| spec_starts_with(p, "-//ietf//dtd html level 1//"@)
    ||| spec_starts_with(p, "-//ietf//dtd html level 2//"@)
    ||| spec_starts_with(p, "-//ietf//dtd html level 3//"@)
    ||| spec_starts_with(p, "-//ietf//dtd html strict level 0//"@)
    ||| spec_starts_with(p, "-//ietf//dtd html strict level 1//"@)
    ||| spec_starts_with(p, "-//ietf//dtd html strict level 2//"@)
    ||| spec_starts_with(p, "-//ietf//dtd html strict level 3//"@)
    ||| spec_starts_with(p, "-//ietf//dtd html strict//"@)
    ||| spec_starts_with(p, "-//ietf//dtd html//"@)
    ||| spec_starts_with(p, "-//metrius//dtd metrius presentational//"@)
    ||| spec_starts_with(p, "-//microsoft//dtd internet explorer 2.0 html strict//"@)
    ||| spec_starts_with(p, "-//microsoft//dtd internet explorer 2.0 html//"@)
    ||| spec_starts_with(p, "-//microsoft//dtd internet explorer 2.0 tables//"@)
    ||| spec_starts_with(p, "-//microsoft//dtd internet explorer 3.0 html strict//"@)
    ||| spec_starts_with(p, "-//microsoft//dtd internet explorer 3.0 html//"@)
    ||| spec_starts_with(p, "-//microsoft//dtd internet explorer 3.0 tables//"@)
    ||| spec_starts_with(p, "-//netscape comm. corp.//dtd html//"@)
    ||| spec_starts_with(p, "-//netscape comm. corp.//dtd strict html//"@)
    ||| spec_starts_with(p, "-//o'reilly and associates//dtd html 2.0//"@)
    ||| spec_starts_with(p, "-//o'reilly and associates//dtd html extended 1.0//"@)
    ||| spec_starts_with(p, "-//o'reilly and associates//dtd html extended relaxed 1.0//"@)
    ||| spec_starts_with(p, "-//sq//dtd html 2.0 hotmetal + extensions//"@)
    ||| spec_starts_with(
        p,
        "-//softquad software//dtd hotmetal pro 6.0::19990601::extensions to html 4.0//"@,
    )
    ||| spec_starts_with(
        p,
        "-//softquad//dtd hotmetal pro 4.0::19971010::extensions to html 4.0//"@,
    )
    ||| spec_starts_with(p, "-//spyglass//dtd html 2.0 extended//"@)
    ||| spec_starts_with(p, "-//sun microsystems corp.//dtd hotjava html//"@)
    ||| spec_starts_with(p, "-//sun microsystems corp.//dtd hotjava strict html//"@)
    ||| spec_starts_with(p, "-//w3c//dtd html 3 1995-03-24//"@)
    ||| spec_starts_with(p, "-//w3c//dtd html 3.2 draft//"@)
    ||| spec_starts_with(p, "-//w3c//dtd html 3.2 final//"@)
    ||| spec_starts_with(p, "-//w3c//dtd html 3.2//"@)
    ||| spec_starts_with(p, "-//w3c//dtd html 3.2s draft//"@)
    ||| spec_starts_with(p, "-//w3c//dtd html 4.0 frameset//"@)
    ||| spec_starts_with(p, "-//w3c//dtd html 4.0 transitional//"@)
    ||| spec_starts_with(p, "-//w3c//dtd html experimental 19960712//"@)
    ||| spec_starts_with(p, "-//w3c//dtd html experimental 970421//"@)
    ||| spec_starts_with(p, "-//w3c//dtd w3 html//"@)
    ||| spec_starts_with(p, "-//w3o//dtd w3 html 3.0//"@)
    ||| spec_starts_with(p, "-//webtechs//dtd mozilla html 2.0//"@)
    ||| spec_starts_with(p, "-//webtechs//dtd mozilla html//"@)
}

/// The two HTML 4.01 prefixes whose effect depends on whether a system
/// identifier is present.
pub open spec fn has_html401_public_id_prefix(p: Seq<char>) -> bool {
    ||| spec_starts_with(p, "-//w3c//dtd html 4.01 frameset//"@)
    ||| spec_starts_with(p, "-//w3c//dtd html 4.01 transitional//"@)
}

/// A (lower-cased) public identifier that selects limited-quirks mode.
pub open spec fn has_limited_quirks_public_id_prefix(p: Seq<char>) -> bool {
    ||| spec_starts_with(p, "-//w3c//dtd xhtml 1.0 frameset//"@)
    ||| spec_starts_with(p, "-//w3c//dtd xhtml 1.0 transitional//"@)
}

/// A (lower-cased) system identifier that forces quirks mode.
pub open spec fn has_quirks_system_id_prefix(s: Seq<char>) -> bool {
    spec_starts_with(s, "http://www.ibm.com/data/dtd/v11/ibmxhtml1-transitional.dtd"@)
}

/// Quirks mode owed to the system identifier alone, once the public
/// identifier has decided nothing.
pub open spec fn spec_classify_system(system_id: Option<Seq<char>>) -> QuirksMode {
    match system_id {
        Some(s) => if has_quirks_system_id_prefix(s) {
            QuirksMode::Quirks
        } else {
            QuirksMode::NoQuirks
        },
        None => QuirksMode::NoQuirks,
    }
}

/// The full classification, over a name compared exactly and identifiers
/// that have already been lower-cased. First match wins: the force-quirks
/// flag and the name, then the public-identifier tables (exact matches,
/// quirks prefixes, the HTML 4.01 prefixes whose outcome depends on the
/// presence of a system identifier, the limited-quirks prefixes), and last
/// the system identifier.
pub open spec fn spec_classify(
    name: Option<Seq<char>>,
    public_id: Option<Seq<char>>,
    system_id: Option<Seq<char>>,
    force_quirks: bool,
) -> QuirksMode {
    if force_quirks || name != Some("html"@) {
        QuirksMode::Quirks
    } else {
        match public_id {
            Some(p) => {
                if is_quirks_public_id_match(p) {
                    QuirksMode::Quirks
                } else if has_quirks_public_id_prefix(p) {
                    QuirksMode::Quirks
                } else if system_id is Some && has_html401_public_id_prefix(p) {
                    QuirksMode::LimitedQuirks
                } else if system_id is None && has_html401_public_id_prefix(p) {
                    QuirksMode::Quirks
                } else if has_limited_quirks_public_id_prefix(p) {
                    QuirksMode::LimitedQuirks
                } else {
                    spec_classify_system(system_id)
                }
            },
            None => spec_classify_system(system_id),
        }
    }
}

/// View of an optional string.
pub open spec fn opt_view(o: Option<String>) -> Option<Seq<char>> {
    match o {
        Some(s) => Some(s@),
        None => None,
    }
}

/// Lower-casing mapped over an optional identifier.
pub open spec fn opt_lower(o: Option<Seq<char>>) -> Option<Seq<char>> {
    match o {
        Some(s) => Some(lower_of(s)),
        None => None,
    }
}

fn is_quirks_public_id_match_str(p: &str) -> (r: bool)
    ensures
        r == is_quirks_public_id_match(p@),
{
    str_eq(p, "-//w3o//dtd w3 html strict 3.0//en//") || str_eq(
        p,
        "-/w3c/dtd html 4.0 transitional/en",
    ) || str_eq(p, "html")
}

#[verifier::rlimit(30)]
fn has_quirks_public_id_prefix_str(p: &str) -> (r: bool)
    ensures
        r == has_quirks_public_id_prefix(p@),
{
    starts_with_str(p, "+//silmaril//dtd html pro v0r11 19970101//") || starts_with_str(
        p,
        "-//as//dtd html 3.0 aswedit + extensions//",
    ) || starts_with_str(p, "-//advasoft ltd//dtd html 3.0 aswedit + extensions//")
        || starts_with_str(p, "-//ietf//dtd html 2.0 level 1//") || starts_with_str(
        p,
        "-//ietf//dtd html 2.0 level 2//",
    ) || starts_with_str(p, "-//ietf//dtd html 2.0 strict level 1//") || starts_with_str(
        p,
        "-//ietf//dtd html 2.0 strict level 2//",
    ) || starts_with_str(p, "-//ietf//dtd html 2.0 strict//") || starts_with_str(
        p,
        "-//ietf//dtd html 2.0//",
    ) || starts_with_str(p, "-//ietf//dtd html 2.1e//") || starts_with_str(
        p,
        "-//ietf//dtd html 3.0//",
    ) || starts_with_str(p, "-//ietf//dtd html 3.2 final//") || starts_with_str(
        p,
        "-//ietf//dtd html 3.2//",
    ) || starts_with_str(p, "-//ietf//dtd html 3//") || starts_with_str(
        p,
        "-//ietf//dtd html level 0//",
    ) || starts_with_str(p, "-//ietf//dtd html level 1//") || starts_with_str(
        p,
        "-//ietf//dtd html level 2//",
    ) || starts_with_str(p, "-//ietf//dtd html level 3//") || starts_with_str(
        p,
        "-//ietf//dtd html strict level 0//",
    ) || starts_with_str(p, "-//ietf//dtd html strict level 1//") || starts_with_str(
        p,
        "-//ietf//dtd html strict level 2//",
    ) || starts_with_str(p, "-//ietf//dtd html strict level 3//") || starts_with_str(
        p,
        "-//ietf//dtd html strict//",
    ) || starts_with_str(p, "-//ietf//dtd html//") || starts_with_str(
        p,
        "-//metrius//dtd metrius presentational//",
    ) || starts_with_str(p, "-//microsoft//dtd internet explorer 2.0 html strict//")
        || starts_with_str(p, "-//microsoft//dtd internet explorer 2.0 html//") || starts_with_str(
        p,
        "-//microsoft//dtd internet explorer 2.0 tables//",
    ) || starts_with_str(p, "-//microsoft//dtd internet explorer 3.0 html strict//")
        || starts_with_str(p, "-//microsoft//dtd internet explorer 3.0 html//") || starts_with_str(
        p,
        "-//microsoft//dtd internet explorer 3.0 tables//",
    ) || starts_with_str(p, "-//netscape comm. corp.//dtd html//") || starts_with_str(
        p,
        "-//netscape comm. corp.//dtd strict html//",
    ) || starts_with_str(p, "-//o'reilly and associates//dtd html 2.0//") || starts_with_str(
        p,
        "-//o'reilly and associates//dtd html extended 1.0//",
    ) || starts_with_str(p, "-//o'reilly and associates//dtd html extended relaxed 1.0//")
        || starts_with_str(p, "-//sq//dtd html 2.0 hotmetal + extensions//") || starts_with_str(
        p,
        "-//softquad software//dtd hotmetal pro 6.0::19990601::extensions to html 4.0//",
    ) || starts_with_str(p, "-//softquad//dtd hotmetal pro 4.0::19971010::extensions to html 4.0//")
        || starts_with_str(p, "-//spyglass//dtd html 2.0 extended//") || starts_with_str(
        p,
        "-//sun microsystems corp.//dtd hotjava html//",
    ) || starts_with_str(p, "-//sun microsystems corp.//dtd hotjava strict html//")
        || starts_with_str(p, "-//w3c//dtd html 3 1995-03-24//") || starts_with_str(
        p,
        "-//w3c//dtd html 3.2 draft//",
    ) || starts_with_str(p, "-//w3c//dtd html 3.2 final//") || starts_with_str(
        p,
        "-//w3c//dtd html 3.2//",
    ) || starts_with_str(p, "-//w3c//dtd html 3.2s draft//") || starts_with_str(
        p,
        "-//w3c//dtd html 4.0 frameset//",
    ) || starts_with_str(p, "-//w3c//dtd html 4.0 transitional//") || starts_with_str(
        p,
        "-//w3c//dtd html experimental 19960712//",
    ) || starts_with_str(p, "-//w3c//dtd html experimental 970421//") || starts_with_str(
        p,
        "-//w3c//dtd w3 html//",
    ) || starts_with_str(p, "-//w3o//dtd w3 html 3.0//") || starts_with_str(
        p,
        "-//webtechs//dtd mozilla html 2.0//",
    ) || starts_with_str(p, "-//webtechs//dtd mozilla html//")
}

fn has_html401_public_id_prefix_str(p: &str) -> (r: bool)
    ensures
        r == has_html401_public_id_prefix(p@),
{
    starts_with_str(p, "-//w3c//dtd html 4.01 frameset//") || starts_with_str(
        p,
        "-//w3c//dtd html 4.01 transitional//",
    )
}

fn has_limited_quirks_public_id_prefix_str(p: &str) -> (r: bool)
    ensures
        r == has_limited_quirks_public_id_prefix(p@),
{
    starts_with_str(p, "-//w3c//dtd xhtml 1.0 frameset//") || starts_with_str(
        p,
        "-//w3c//dtd xhtml 1.0 transitional//",
    )
}

fn has_quirks_system_id_prefix_str(s: &str) -> (r: bool)
    ensures
        r == has_quirks_system_id_prefix(s@),
{
    starts_with_str(s, "http://www.ibm.com/data/dtd/v11/ibmxhtml1-transitional.dtd")
}

/// Classification over identifiers that the caller has already lower-cased:
/// the result is pinned exactly, step by step, for every input.
pub fn classify_folded(
    name: &Option<String>,
    public_id: &Option<String>,
    system_id: &Option<String>,
    force_quirks: bool,
) -> (r: QuirksMode)
    ensures
        r == spec_classify(opt_view(*name), opt_view(*public_id), opt_view(*system_id),
            force_quirks),
{
    if force_quirks {
        return QuirksMode::Quirks;
    }
    let name_is_html = match name {
        Some(n) => str_eq(n.as_str(), "html"),
        None => false,
    };
    if !name_is_html {
        return QuirksMode::Quirks;
    }
    if let Some(p) = public_id {
        let p = p.as_str();
        if is_quirks_public_id_match_str(p) {
            return QuirksMode::Quirks;
        }
        if has_quirks_public_id_prefix_str(p) {
            return QuirksMode::Quirks;
        }
        if system_id.is_some() && has_html401_public_id_prefix_str(p) {
            return QuirksMode::LimitedQuirks;
        }
        if system_id.is_none() && has_html401_public_id_prefix_str(p) {
            return QuirksMode::Quirks;
        }
        if has_limited_quirks_public_id_prefix_str(p) {
            return QuirksMode::LimitedQuirks;
        }
    }
    if let Some(s) = system_id {
        if has_quirks_system_id_prefix_str(s.as_str()) {
            return QuirksMode::Quirks;
        }
    }
    QuirksMode::NoQuirks
}

/// The quirks mode owed to a DOCTYPE token's fields: the name is compared
/// exactly, the identifiers are lower-cased and then held against the fixed
/// tables, in standard order.
pub fn identify_quirks_mode(
    name: &Option<String>,
    pub_identifier: Option<String>,
    sys_identifier: Option<String>,
    force_quirks: bool,
) -> (r: QuirksMode)
    ensures
        r == spec_classify(opt_view(*name), opt_lower(opt_view(pub_identifier)),
            opt_lower(opt_view(sys_identifier)), force_quirks),
{
    let folded_pub = match &pub_identifier {
        Some(p) => Some(fold_lower(p.as_str())),
        None => None,
    };
    let folded_sys = match &sys_identifier {
        Some(s) => Some(fold_lower(s.as_str())),
        None => None,
    };
    classify_folded(name, &folded_pub, &folded_sys, force_quirks)
}

/// Classification is deterministic: two results obtained from the same
/// DOCTYPE fields are the same mode.
pub proof fn lemma_classify_deterministic(
    r1: QuirksMode,
    r2: QuirksMode,
    name: Option<Seq<char>>,
    public_id: Option<Seq<char>>,
    system_id: Option<Seq<char>>,
    force_quirks: bool,
)
    requires
        r1 == spec_classify(name, public_id, system_id, force_quirks),
        r2 == spec_classify(name, public_id, system_id, force_quirks),
    ensures
        r1 == r2,
{
}

/// Identifier matching is case-insensitive: two public identifiers (and two
/// system identifiers) that agree once lower-cased classify alike. The name
/// is deliberately absent here: it is compared exactly, so `"HTML"` and
/// `"html"` differ.
pub proof fn lemma_classify_case_insensitive(
    name: Option<Seq<char>>,
    pub1: Option<Seq<char>>,
    pub2: Option<Seq<char>>,
    sys1: Option<Seq<char>>,
    sys2: Option<Seq<char>>,
    force_quirks: bool,
)
    requires
        opt_lower(pub1) == opt_lower(pub2),
        opt_lower(sys1) == opt_lower(sys2),
    ensures
        spec_classify(name, opt_lower(pub1), opt_lower(sys1), force_quirks) == spec_classify(
            name,
            opt_lower(pub2),
            opt_lower(sys2),
            force_quirks,
        ),
{
}

/// The force-quirks flag dominates: whatever the other fields hold, a token
/// with the flag set classifies as quirks mode.
pub proof fn lemma_force_quirks_dominates(
    name: Option<Seq<char>>,
    public_id: Option<Seq<char>>,
    system_id: Option<Seq<char>>,
)
    ensures
        spec_classify(name, public_id, system_id, true) == QuirksMode::Quirks,
{
}

} // verus!
