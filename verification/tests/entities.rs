use gosub_engine::entities::{lookup_entity, named_ref_outcome, numeric_ref_char, RefOutcome};

#[test]
fn entity_table_lookup() {
    assert_eq!(lookup_entity("amp"), Some(('&', true)));
    assert_eq!(lookup_entity("AMP"), Some(('&', true)));
    assert_eq!(lookup_entity("copy"), Some(('\u{a9}', true)));
    assert_eq!(lookup_entity("trade"), Some(('\u{2122}', false)));
    assert_eq!(lookup_entity("apos"), Some(('\'', false)));
    assert_eq!(lookup_entity("bogus"), None);
    assert_eq!(lookup_entity("Amp"), None);
}

#[test]
fn named_outcome_terminated() {
    match named_ref_outcome("amp", true, false, false) {
        RefOutcome::Resolved { ch, missing_semicolon } => {
            assert_eq!(ch, '&');
            assert!(!missing_semicolon);
        }
        RefOutcome::NotResolved => panic!("amp; must resolve"),
    }
}

#[test]
fn named_outcome_legacy_without_semicolon() {
    // The legacy rule resolves, flagging the missing semicolon.
    match named_ref_outcome("amp", false, false, false) {
        RefOutcome::Resolved { ch, missing_semicolon } => {
            assert_eq!(ch, '&');
            assert!(missing_semicolon);
        }
        RefOutcome::NotResolved => panic!("legacy amp must resolve"),
    }
    // A non-legacy name does not.
    assert!(matches!(
        named_ref_outcome("trade", false, false, false),
        RefOutcome::NotResolved
    ));
}

#[test]
fn named_outcome_blocked_in_attribute() {
    // Inside an attribute value, an alphanumeric or equals sign after the
    // name blocks the legacy rule.
    assert!(matches!(
        named_ref_outcome("amp", false, true, true),
        RefOutcome::NotResolved
    ));
    assert!(matches!(
        named_ref_outcome("amp", false, true, false),
        RefOutcome::Resolved { ch: '&', missing_semicolon: true }
    ));
}

#[test]
fn numeric_reference_characters() {
    assert_eq!(numeric_ref_char(65), ('A', false));
    assert_eq!(numeric_ref_char(0x1f600), ('\u{1f600}', false));
    assert_eq!(numeric_ref_char(0), ('\u{fffd}', true));
    assert_eq!(numeric_ref_char(0xd800), ('\u{fffd}', true));
    assert_eq!(numeric_ref_char(0x110000), ('\u{fffd}', true));
}
