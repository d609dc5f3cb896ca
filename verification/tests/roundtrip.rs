use gosub_engine::dom::{Document, NodeData};
use gosub_engine::parser::Html5Parser;
use gosub_engine::quirks::QuirksMode;
use gosub_engine::serialize::serialize;

fn parse(input: &str) -> Document {
    let (doc, _errors) = Html5Parser::new(input).parse();
    doc
}

fn attrs_sorted(data: &NodeData) -> Vec<(String, String)> {
    match data {
        NodeData::Element { attributes, .. } => {
            let mut v: Vec<(String, String)> = attributes
                .iter()
                .map(|a| (a.name.clone(), a.value.clone()))
                .collect();
            v.sort();
            v
        }
        _ => Vec::new(),
    }
}

fn same_shape(a: &Document, ai: usize, b: &Document, bi: usize) -> bool {
    let na = &a.nodes[ai];
    let nb = &b.nodes[bi];
    let heads_match = match (&na.data, &nb.data) {
        (NodeData::Document, NodeData::Document) => true,
        (NodeData::DocumentType { name: n1, .. }, NodeData::DocumentType { name: n2, .. }) => {
            n1 == n2
        }
        (NodeData::Element { name: n1, .. }, NodeData::Element { name: n2, .. }) => {
            n1 == n2 && attrs_sorted(&na.data) == attrs_sorted(&nb.data)
        }
        (NodeData::Text { data: d1 }, NodeData::Text { data: d2 }) => d1 == d2,
        (NodeData::Comment { data: d1 }, NodeData::Comment { data: d2 }) => d1 == d2,
        _ => false,
    };
    if !heads_match || na.children.len() != nb.children.len() {
        return false;
    }
    for (ca, cb) in na.children.iter().zip(nb.children.iter()) {
        if !same_shape(a, *ca, b, *cb) {
            return false;
        }
    }
    true
}

#[test]
fn reparse_keeps_tree_shape() {
    // Serializing the tree and parsing the result reproduces the same
    // shape and text, attribute order aside.
    let input = "<!DOCTYPE html><html><head><title>T</title></head>\
                 <body><p id=\"a\" class=\"b\">Hello <b>world</b>!</p></body></html>";
    let doc1 = parse(input);
    let markup = serialize(&doc1);
    let doc2 = parse(&markup);
    assert!(same_shape(&doc1, 0, &doc2, 0));
    assert_eq!(doc1.quirks_mode, doc2.quirks_mode);
}

#[test]
fn serialization_is_idempotent() {
    let input = "<!DOCTYPE html><body><ul><li>one<li>two</ul>\
                 <p data-x=\"1 &amp; 2\">a &lt; b</p></body>";
    let doc1 = parse(input);
    let m1 = serialize(&doc1);
    let doc2 = parse(&m1);
    let m2 = serialize(&doc2);
    assert_eq!(m1, m2);
    assert!(same_shape(&doc1, 0, &doc2, 0));
}

#[test]
fn parse_populates_document_and_errors() {
    let (doc, errors) = Html5Parser::new("<p>x").parse();
    // No doctype: the classifier's default applies and the error is
    // recorded, but parsing recovers.
    assert_eq!(doc.quirks_mode, QuirksMode::Quirks);
    assert!(errors.iter().any(|e| e.message == "missing-doctype"));
    assert!(doc.nodes.len() > 1);
}

#[test]
fn comments_and_whitespace_round_trip() {
    let input = "<!DOCTYPE html><html><!-- note --><head></head><body>hi</body></html>";
    let doc1 = parse(input);
    let markup = serialize(&doc1);
    let doc2 = parse(&markup);
    assert!(same_shape(&doc1, 0, &doc2, 0));
}

#[test]
fn empty_input_still_builds_scaffolding() {
    let (doc, errors) = Html5Parser::new("").parse();
    assert_eq!(doc.quirks_mode, QuirksMode::Quirks);
    assert!(errors.iter().any(|e| e.message == "missing-doctype"));
    let html = doc.nodes[0].children[0];
    assert_eq!(doc.nodes[html].children.len(), 2);
    let markup = serialize(&doc);
    assert_eq!(markup, "<html><head></head><body></body></html>");
}
