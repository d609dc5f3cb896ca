use gosub_engine::quirks::{classify_folded, identify_quirks_mode, QuirksMode};

#[test]
fn test_quirks_mode() {
    assert_eq!(
        identify_quirks_mode(&None, None, None, false),
        QuirksMode::Quirks
    );
    assert_eq!(
        identify_quirks_mode(&Some("html".to_string()), None, None, false),
        QuirksMode::NoQuirks
    );
    assert_eq!(
        identify_quirks_mode(&Some("HTML".to_string()), None, None, false),
        QuirksMode::Quirks
    );
    assert_eq!(
        identify_quirks_mode(&Some("HTml".to_string()), None, None, false),
        QuirksMode::Quirks
    );
    assert_eq!(
        identify_quirks_mode(
            &Some("html".to_string()),
            Some("-//W3O//DTD W3 HTML Strict 3.0//EN//".to_string()),
            None,
            false
        ),
        QuirksMode::Quirks
    );
    assert_eq!(
        identify_quirks_mode(
            &Some("html".to_string()),
            Some("-//W3C//DTD HTML 4.0 Transitional//EN".to_string()),
            None,
            false
        ),
        QuirksMode::Quirks
    );
    assert_eq!(
        identify_quirks_mode(
            &Some("html".to_string()),
            Some("-/W3C/DTD HTML 4.0 Transitional/EN".to_string()),
            None,
            false
        ),
        QuirksMode::Quirks
    );
    assert_eq!(
        identify_quirks_mode(
            &Some("html".to_string()),
            Some("-/W3C/DTD HTML 4.0 Transitional/EN".to_string()),
            None,
            false
        ),
        QuirksMode::Quirks
    );
    assert_eq!(
        identify_quirks_mode(
            &Some("html".to_string()),
            Some("-//W3C//DTD HTML 4.01 Frameset//".to_string()),
            None,
            false
        ),
        QuirksMode::Quirks
    );
    assert_eq!(
        identify_quirks_mode(
            &Some("html".to_string()),
            Some("-//W3C//DTD HTML 4.01 Transitional//".to_string()),
            None,
            false
        ),
        QuirksMode::Quirks
    );
    assert_eq!(
        identify_quirks_mode(
            &Some("html".to_string()),
            Some("-//W3C//DTD XHTML 1.0 Frameset//EN".to_string()),
            None,
            false
        ),
        QuirksMode::LimitedQuirks
    );
}

#[test]
fn test_quirks_mode_force() {
    assert_eq!(
        identify_quirks_mode(&Some("html".to_string()), None, None, true),
        QuirksMode::Quirks
    );
    assert_eq!(
        identify_quirks_mode(
            &Some("html".to_string()),
            Some("-//W3O//DTD W3 HTML Strict 3.0//EN//".to_string()),
            None,
            true
        ),
        QuirksMode::Quirks
    );
    assert_eq!(
        identify_quirks_mode(
            &Some("html".to_string()),
            Some("-//W3C//DTD HTML 4.0 Transitional//EN".to_string()),
            None,
            true
        ),
        QuirksMode::Quirks
    );
    assert_eq!(
        identify_quirks_mode(
            &Some("html".to_string()),
            Some("-/W3C/DTD HTML 4.0 Transitional/EN".to_string()),
            None,
            true
        ),
        QuirksMode::Quirks
    );
    assert_eq!(
        identify_quirks_mode(
            &Some("html".to_string()),
            Some("-/W3C/DTD HTML 4.0 Transitional/EN".to_string()),
            None,
            true
        ),
        QuirksMode::Quirks
    );
    assert_eq!(
        identify_quirks_mode(
            &Some("html".to_string()),
            Some("-//W3C//DTD HTML 4.01 Frameset//".to_string()),
            None,
            true
        ),
        QuirksMode::Quirks
    );
    assert_eq!(
        identify_quirks_mode(
            &Some("html".to_string()),
            Some("-//W3C//DTD HTML 4.01 Transitional//".to_string()),
            None,
            true
        ),
        QuirksMode::Quirks
    );
    assert_eq!(
        identify_quirks_mode(
            &Some("html".to_string()),
            Some("-//W3C//DTD XHTML 1.0 Frameset//".to_string()),
            None,
            true
        ),
        QuirksMode::Quirks
    );
}

#[test]
fn test_quirks_mode_sys() {
    assert_eq!(
        identify_quirks_mode(
            &Some("html".to_string()),
            Some("-//W3C//DTD HTML 4.0 Transitional//EN".to_string()),
            Some("http://www.w3.org/TR/html4/loose.dtd".to_string()),
            false
        ),
        QuirksMode::Quirks
    );
    assert_eq!(
        identify_quirks_mode(
            &Some("html".to_string()),
            Some("-//W3C//DTD HTML 4.01 Frameset//".to_string()),
            Some("http://www.w3.org/TR/html4/frameset.dtd".to_string()),
            false
        ),
        QuirksMode::LimitedQuirks
    );
}

#[test]
fn test_quirks_mode_sys_missing() {
    assert_eq!(
        identify_quirks_mode(
            &Some("html".to_string()),
            Some("-//W3C//DTD HTML 4.01 Frameset//".to_string()),
            None,
            false
        ),
        QuirksMode::Quirks
    );
}

#[test]
fn quirks_ibm_system_identifier() {
    assert_eq!(
        identify_quirks_mode(
            &Some("html".to_string()),
            None,
            Some("HTTP://WWW.IBM.COM/data/dtd/v11/ibmxhtml1-transitional.dtd".to_string()),
            false
        ),
        QuirksMode::Quirks
    );
    assert_eq!(
        identify_quirks_mode(
            &Some("html".to_string()),
            None,
            Some("http://example.org/strict.dtd".to_string()),
            false
        ),
        QuirksMode::NoQuirks
    );
}

#[test]
fn quirks_exact_match_table() {
    assert_eq!(
        identify_quirks_mode(&Some("html".to_string()), Some("HTML".to_string()), None, false),
        QuirksMode::Quirks
    );
    assert_eq!(
        identify_quirks_mode(
            &Some("html".to_string()),
            Some("-/W3C/DTD HTML 4.0 TRANSITIONAL/EN".to_string()),
            None,
            false
        ),
        QuirksMode::Quirks
    );
}

#[test]
fn quirks_classify_folded_expects_lower_case() {
    // The folded entry point matches case-sensitively against the
    // lower-case tables.
    assert_eq!(
        classify_folded(
            &Some("html".to_string()),
            &Some("-//w3c//dtd xhtml 1.0 frameset//en".to_string()),
            &None,
            false
        ),
        QuirksMode::LimitedQuirks
    );
    assert_eq!(
        classify_folded(
            &Some("html".to_string()),
            &Some("-//W3C//DTD XHTML 1.0 Frameset//EN".to_string()),
            &None,
            false
        ),
        QuirksMode::NoQuirks
    );
}

#[test]
fn classification_is_deterministic_and_identifier_case_blind() {
    let name = Some("html".to_string());
    let pub_id = Some("-//W3C//DTD XHTML 1.0 Transitional//EN".to_string());
    let sys_id = Some("http://example.org/x.dtd".to_string());
    let first = identify_quirks_mode(&name, pub_id.clone(), sys_id.clone(), false);
    let second = identify_quirks_mode(&name, pub_id.clone(), sys_id.clone(), false);
    assert_eq!(first, second);
    let folded = identify_quirks_mode(
        &name,
        Some("-//w3c//dtd xhtml 1.0 transitional//en".to_string()),
        Some("HTTP://EXAMPLE.ORG/X.DTD".to_string()),
        false,
    );
    assert_eq!(first, folded);
    assert_eq!(first, QuirksMode::LimitedQuirks);
}
