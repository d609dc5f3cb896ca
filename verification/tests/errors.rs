use gosub_engine::parser::Html5Parser;
use gosub_engine::tokenizer::Tokenizer;
use gosub_engine::tokens::Token;

fn errors_of(input: &str) -> Vec<String> {
    let mut t = Tokenizer::new(input);
    loop {
        if matches!(t.next_token(), Token::EndOfFile) {
            break;
        }
    }
    t.errors.iter().map(|e| e.message.clone()).collect()
}

fn has(errs: &[String], msg: &str) -> bool {
    errs.iter().any(|e| e == msg)
}

#[test]
fn numeric_reference_without_digits() {
    let errs = errors_of("&#;");
    assert!(has(&errs, "absence-of-digits-in-numeric-character-reference"));
    let errs2 = errors_of("&#x;");
    assert!(has(&errs2, "absence-of-digits-in-numeric-character-reference"));
}

#[test]
fn abrupt_empty_comment() {
    let errs = errors_of("<!-->");
    assert!(has(&errs, "abrupt-closing-of-empty-comment"));
}

#[test]
fn missing_end_tag_name() {
    let errs = errors_of("</>");
    assert!(has(&errs, "missing-end-tag-name"));
}

#[test]
fn eof_before_tag_name() {
    let mut t = Tokenizer::new("a<");
    let mut text = String::new();
    loop {
        match t.next_token() {
            Token::Character { data } => text.push(data),
            Token::EndOfFile => break,
            _ => {}
        }
    }
    // The lone angle bracket still reaches the output as a character.
    assert_eq!(text, "a<");
    assert!(has(
        &t.errors.iter().map(|e| e.message.clone()).collect::<Vec<_>>(),
        "eof-before-tag-name"
    ));
}

#[test]
fn question_mark_opens_bogus_comment() {
    let mut t = Tokenizer::new("<?instruction?>");
    let tok = t.next_token();
    match tok {
        Token::Comment { data } => assert_eq!(data.as_str(), "?instruction?"),
        other => panic!("expected bogus comment, got {other:?}"),
    }
    let errs: Vec<String> = t.errors.iter().map(|e| e.message.clone()).collect();
    assert!(has(&errs, "unexpected-question-mark-instead-of-tag-name"));
}

#[test]
fn incorrectly_opened_comment() {
    let mut t = Tokenizer::new("<!note>");
    let tok = t.next_token();
    match tok {
        Token::Comment { data } => assert_eq!(data.as_str(), "note"),
        other => panic!("expected bogus comment, got {other:?}"),
    }
    let errs: Vec<String> = t.errors.iter().map(|e| e.message.clone()).collect();
    assert!(has(&errs, "incorrectly-opened-comment"));
}

#[test]
fn missing_attribute_value() {
    let mut t = Tokenizer::new("<p a=>");
    match t.next_token() {
        Token::StartTag { attributes, .. } => {
            assert_eq!(attributes.len(), 1);
            assert_eq!(attributes[0].name, "a");
            assert_eq!(attributes[0].value, "");
        }
        other => panic!("expected start tag, got {other:?}"),
    }
    let errs: Vec<String> = t.errors.iter().map(|e| e.message.clone()).collect();
    assert!(has(&errs, "missing-attribute-value"));
}

#[test]
fn end_tag_with_attributes_and_solidus() {
    let errs = errors_of("</p a=\"1\">");
    assert!(has(&errs, "end-tag-with-attributes"));
    let errs2 = errors_of("</p/>");
    assert!(has(&errs2, "end-tag-with-trailing-solidus"));
}

#[test]
fn doctype_identifier_errors() {
    let errs = errors_of("<!DOCTYPE html PUBLIC>");
    assert!(has(&errs, "missing-doctype-public-identifier"));
    let errs2 = errors_of("<!DOCTYPE html PUBLIC x>");
    assert!(has(&errs2, "missing-quote-before-doctype-public-identifier"));
    let errs3 = errors_of("<!DOCTYPE html SYSTEM \"x>");
    assert!(has(&errs3, "abrupt-doctype-system-identifier"));
    let errs4 = errors_of("<!DOCTYPE html PUBLIC \"x>");
    assert!(has(&errs4, "abrupt-doctype-public-identifier"));
    let errs5 = errors_of("<!DOCTYPE html garbage>");
    assert!(has(&errs5, "invalid-character-sequence-after-doctype-name"));
    let errs6 = errors_of("<!DOCTYPE>");
    assert!(has(&errs6, "missing-doctype-name"));
}

#[test]
fn structural_errors_through_full_parse() {
    let (_, errors) = Html5Parser::new(
        "<!DOCTYPE html><!DOCTYPE html><html><body><html><p>x</body>y",
    )
    .parse();
    let msgs: Vec<String> = errors.iter().map(|e| e.message.clone()).collect();
    // A second doctype and a stray html start tag are structural errors.
    assert!(has(&msgs, "unexpected-doctype"));
    assert!(has(&msgs, "unexpected-start-tag"));
}

#[test]
fn unterminated_script_is_an_error() {
    let (_, errors) = Html5Parser::new("<!DOCTYPE html><body><script>var x = 1;").parse();
    let msgs: Vec<String> = errors.iter().map(|e| e.message.clone()).collect();
    assert!(has(&msgs, "eof-in-element-that-can-contain-only-text"));
}
