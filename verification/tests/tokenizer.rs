use gosub_engine::tokenizer::Tokenizer;
use gosub_engine::tokens::Token;

fn collect(input: &str) -> (Vec<Token>, Vec<String>) {
    let mut t = Tokenizer::new(input);
    let mut out = Vec::new();
    loop {
        let tok = t.next_token();
        let eof = matches!(tok, Token::EndOfFile);
        out.push(tok);
        if eof {
            break;
        }
    }
    let errs = t.errors.iter().map(|e| e.message.clone()).collect();
    (out, errs)
}

fn text_of(tokens: &[Token]) -> String {
    let mut s = String::new();
    for t in tokens {
        if let Token::Character { data } = t {
            s.push(*data);
        }
    }
    s
}

#[test]
fn plain_text_characters() {
    let (tokens, errs) = collect("ab c");
    assert_eq!(text_of(&tokens), "ab c");
    assert!(errs.is_empty());
}

#[test]
fn named_reference_with_semicolon() {
    let (tokens, errs) = collect("a&amp;b");
    assert_eq!(text_of(&tokens), "a&b");
    assert!(errs.is_empty());
}

#[test]
fn legacy_reference_without_semicolon() {
    // The legacy rule still resolves the reference, but the missing
    // semicolon is a parse error.
    let (tokens, errs) = collect("x&amp y");
    assert_eq!(text_of(&tokens), "x& y");
    assert_eq!(errs, vec!["missing-semicolon-after-character-reference".to_string()]);
}

#[test]
fn legacy_reference_table_cases() {
    for (input, expect) in [
        ("&lt ", "< "),
        ("&gt ", "> "),
        ("&copy 2024", "\u{a9} 2024"),
        ("&nbsp.", "\u{a0}."),
        ("&reg!", "\u{ae}!"),
    ] {
        let (tokens, errs) = collect(input);
        assert_eq!(text_of(&tokens), expect, "input {input:?}");
        assert_eq!(
            errs,
            vec!["missing-semicolon-after-character-reference".to_string()],
            "input {input:?}"
        );
    }
}

#[test]
fn non_legacy_reference_needs_semicolon() {
    // `trade` is not on the legacy list: without the semicolon the
    // characters pass through unchanged and silently.
    let (tokens, errs) = collect("a&trade b");
    assert_eq!(text_of(&tokens), "a&trade b");
    assert!(errs.is_empty());
    let (tokens2, errs2) = collect("a&trade;b");
    assert_eq!(text_of(&tokens2), "a\u{2122}b");
    assert!(errs2.is_empty());
}

#[test]
fn unknown_reference_with_semicolon_is_error() {
    let (tokens, errs) = collect("&bogus;");
    assert_eq!(text_of(&tokens), "&bogus;");
    assert_eq!(errs, vec!["unknown-named-character-reference".to_string()]);
}

#[test]
fn numeric_references() {
    let (tokens, errs) = collect("&#65;&#x42;");
    assert_eq!(text_of(&tokens), "AB");
    assert!(errs.is_empty());
    let (tokens2, errs2) = collect("&#0;");
    assert_eq!(text_of(&tokens2), "\u{fffd}");
    assert_eq!(errs2, vec!["invalid-numeric-character-reference".to_string()]);
    let (tokens3, errs3) = collect("&#x110000;");
    assert_eq!(text_of(&tokens3), "\u{fffd}");
    assert_eq!(errs3, vec!["invalid-numeric-character-reference".to_string()]);
}

#[test]
fn start_tag_with_attributes() {
    let (tokens, errs) = collect("<p class=\"note wide\" hidden>");
    assert!(errs.is_empty());
    match &tokens[0] {
        Token::StartTag { name, attributes, self_closing } => {
            assert_eq!(name.as_str(), "p");
            assert!(!self_closing);
            assert_eq!(attributes.len(), 2);
            assert_eq!(attributes[0].name, "class");
            assert_eq!(attributes[0].value, "note wide");
            assert_eq!(attributes[1].name, "hidden");
            assert_eq!(attributes[1].value, "");
        }
        other => panic!("expected start tag, got {other:?}"),
    }
}

#[test]
fn tag_names_are_lower_cased() {
    let (tokens, _) = collect("<DIV Data-X='1'></DIV>");
    match &tokens[0] {
        Token::StartTag { name, attributes, .. } => {
            assert_eq!(name.as_str(), "div");
            assert_eq!(attributes[0].name, "data-x");
            assert_eq!(attributes[0].value, "1");
        }
        other => panic!("expected start tag, got {other:?}"),
    }
    match &tokens[1] {
        Token::EndTag { name } => assert_eq!(name.as_str(), "div"),
        other => panic!("expected end tag, got {other:?}"),
    }
}

#[test]
fn self_closing_and_duplicate_attribute() {
    let (tokens, errs) = collect("<img a='1' a='2'/>");
    match &tokens[0] {
        Token::StartTag { name, attributes, self_closing } => {
            assert_eq!(name.as_str(), "img");
            assert!(*self_closing);
            assert_eq!(attributes.len(), 1);
            assert_eq!(attributes[0].value, "1");
        }
        other => panic!("expected start tag, got {other:?}"),
    }
    assert_eq!(errs, vec!["duplicate-attribute".to_string()]);
}

#[test]
fn comment_token() {
    let (tokens, errs) = collect("<!-- hello -->");
    match &tokens[0] {
        Token::Comment { data } => assert_eq!(data.as_str(), " hello "),
        other => panic!("expected comment, got {other:?}"),
    }
    assert!(errs.is_empty());
}

#[test]
fn unterminated_comment_is_error() {
    let (tokens, errs) = collect("<!-- oops");
    match &tokens[0] {
        Token::Comment { data } => assert_eq!(data.as_str(), " oops"),
        other => panic!("expected comment, got {other:?}"),
    }
    assert_eq!(errs, vec!["eof-in-comment".to_string()]);
}

#[test]
fn doctype_with_identifiers() {
    let (tokens, errs) = collect(
        "<!DOCTYPE html PUBLIC \"-//W3C//DTD HTML 4.01//EN\" \"http://www.w3.org/TR/html4/strict.dtd\">",
    );
    match &tokens[0] {
        Token::Doctype { name, public_id, system_id, force_quirks } => {
            assert_eq!(name.as_deref(), Some("html"));
            assert_eq!(public_id.as_deref(), Some("-//W3C//DTD HTML 4.01//EN"));
            assert_eq!(system_id.as_deref(), Some("http://www.w3.org/TR/html4/strict.dtd"));
            assert!(!force_quirks);
        }
        other => panic!("expected doctype, got {other:?}"),
    }
    assert!(errs.is_empty());
}

#[test]
fn doctype_eof_forces_quirks() {
    let (tokens, errs) = collect("<!DOCTYPE htm");
    match &tokens[0] {
        Token::Doctype { force_quirks, .. } => assert!(force_quirks),
        other => panic!("expected doctype, got {other:?}"),
    }
    assert_eq!(errs, vec!["eof-in-doctype".to_string()]);
}

#[test]
fn rawtext_keeps_markup_until_matching_end_tag() {
    let mut t = Tokenizer::new("<script>if (a<b) { x(); }</script>done");
    let mut texts = String::new();
    let mut saw_end = false;
    let mut tail = String::new();
    loop {
        let tok = t.next_token();
        match tok {
            Token::StartTag { ref name, .. } if name.as_str() == "script" => {
                t.switch_to_rawtext();
            }
            Token::Character { data } => {
                if saw_end {
                    tail.push(data);
                } else {
                    texts.push(data);
                }
            }
            Token::EndTag { ref name } => {
                assert_eq!(name.as_str(), "script");
                saw_end = true;
            }
            Token::EndOfFile => break,
            other => panic!("unexpected token {other:?}"),
        }
    }
    assert_eq!(texts, "if (a<b) { x(); }");
    assert_eq!(tail, "done");
}
