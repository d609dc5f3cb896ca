use gosub_engine::dom::NodeData;
use gosub_engine::quirks::QuirksMode;
use gosub_engine::tokens::Token;
use gosub_engine::treebuilder::{InsertionMode, TreeBuilder};

fn start(name: &str) -> Token {
    Token::StartTag { name: name.to_string(), attributes: Vec::new(), self_closing: false }
}

fn end(name: &str) -> Token {
    Token::EndTag { name: name.to_string() }
}

fn builder_in_body() -> TreeBuilder {
    let mut tb = TreeBuilder::new();
    tb.process_token(Token::Doctype {
        name: Some("html".to_string()),
        public_id: None,
        system_id: None,
        force_quirks: false,
    });
    tb.process_token(start("html"));
    tb.process_token(start("head"));
    tb.process_token(end("head"));
    tb.process_token(start("body"));
    assert_eq!(tb.mode, InsertionMode::InBody);
    tb
}

#[test]
fn nested_tags_restore_open_elements() {
    // Processing a well-formed fragment of nested tags returns the open
    // elements stack to exactly the state from before the fragment.
    let mut tb = builder_in_body();
    let before = tb.open_elements.clone();
    tb.process_token(start("div"));
    tb.process_token(start("section"));
    tb.process_token(start("span"));
    tb.process_token(end("span"));
    tb.process_token(end("section"));
    tb.process_token(end("div"));
    assert_eq!(tb.open_elements, before);
    assert_eq!(tb.mode, InsertionMode::InBody);
}

#[test]
fn doctype_sets_quirks_mode_once() {
    let mut tb = TreeBuilder::new();
    assert_eq!(tb.doc.quirks_mode, QuirksMode::NoQuirks);
    tb.process_token(Token::Doctype {
        name: Some("html".to_string()),
        public_id: Some("-//W3C//DTD XHTML 1.0 Frameset//EN".to_string()),
        system_id: None,
        force_quirks: false,
    });
    assert_eq!(tb.doc.quirks_mode, QuirksMode::LimitedQuirks);
    assert_eq!(tb.mode, InsertionMode::BeforeHtml);
}

#[test]
fn missing_doctype_defaults_to_quirks() {
    let mut tb = TreeBuilder::new();
    tb.process_token(start("html"));
    assert_eq!(tb.doc.quirks_mode, QuirksMode::Quirks);
}

#[test]
fn implied_elements_are_created() {
    // A bare paragraph still gets html, head and body scaffolding.
    let mut tb = TreeBuilder::new();
    tb.process_token(start("p"));
    tb.process_token(Token::Character { data: 'x' });
    tb.process_token(end("p"));
    tb.process_token(Token::EndOfFile);
    let doc = &tb.doc;
    // root -> html -> {head, body -> p -> text}
    let html = doc.nodes[0].children[0];
    match &doc.nodes[html].data {
        NodeData::Element { name, .. } => assert_eq!(name.as_str(), "html"),
        other => panic!("expected html element, got {other:?}"),
    }
    let kids = &doc.nodes[html].children;
    assert_eq!(kids.len(), 2);
    match &doc.nodes[kids[0]].data {
        NodeData::Element { name, .. } => assert_eq!(name.as_str(), "head"),
        other => panic!("expected head element, got {other:?}"),
    }
    match &doc.nodes[kids[1]].data {
        NodeData::Element { name, .. } => assert_eq!(name.as_str(), "body"),
        other => panic!("expected body element, got {other:?}"),
    }
    let body = kids[1];
    let p = doc.nodes[body].children[0];
    match &doc.nodes[p].data {
        NodeData::Element { name, .. } => assert_eq!(name.as_str(), "p"),
        other => panic!("expected p element, got {other:?}"),
    }
    let text = doc.nodes[p].children[0];
    match &doc.nodes[text].data {
        NodeData::Text { data } => assert_eq!(data.as_str(), "x"),
        other => panic!("expected text node, got {other:?}"),
    }
}

#[test]
fn mismatched_end_tag_recovers() {
    let mut tb = builder_in_body();
    let before = tb.open_elements.clone();
    tb.process_token(start("div"));
    tb.process_token(start("b"));
    // The div end tag closes the unfinished b as well, with an error.
    tb.process_token(end("div"));
    assert_eq!(tb.open_elements, before);
    assert!(tb.errors.iter().any(|e| e.message == "end-tag-closes-unfinished-elements"));
}

#[test]
fn stray_end_tag_is_ignored() {
    let mut tb = builder_in_body();
    let before = tb.open_elements.clone();
    tb.process_token(end("article"));
    assert_eq!(tb.open_elements, before);
    assert!(tb.errors.iter().any(|e| e.message == "unexpected-end-tag"));
}

#[test]
fn void_elements_are_not_pushed() {
    let mut tb = builder_in_body();
    let before = tb.open_elements.clone();
    tb.process_token(start("br"));
    tb.process_token(start("img"));
    assert_eq!(tb.open_elements, before);
}
