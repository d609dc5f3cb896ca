//! Serialization of a document tree back to markup.
//!
//! Text escapes the characters that would re-open the grammar; attribute
//! values are double-quoted with their own escaping; void elements take no
//! end tag. The executable serializer is proved equal to the spec-level
//! serialization below, so what it emits is pinned character by character.

use crate::dom::{Document, NodeData};
use crate::text::{append_str, push_char};
use crate::tokens::Attribute;
use crate::treebuilder::{is_void_tag, spec_is_void_tag};
use vstd::prelude::*;
use vstd::string::StrSliceExecFns;

verus! {

/// The escaped form of one character of text content.
pub open spec fn spec_escape_text_char(c: char) -> Seq<char> {
    if c == '&' {
        "&amp;"@
    } else if c == '<' {
        "&lt;"@
    } else if c == '>' {
        "&gt;"@
    } else {
        seq![c]
    }
}

/// The escaped form of text content.
pub open spec fn spec_escape_text(s: Seq<char>) -> Seq<char>
    decreases s.len(),
{
    if s.len() == 0 {
        Seq::empty()
    } else {
        spec_escape_text(s.drop_last()) + spec_escape_text_char(s.last())
    }
}

/// The escaped form of one character of a double-quoted attribute value.
pub open spec fn spec_escape_attr_char(c: char) -> Seq<char> {
    if c == '&' {
        "&amp;"@
    } else if c == '"' {
        "&quot;"@
    } else {
        seq![c]
    }
}

/// The escaped form of a double-quoted attribute value.
pub open spec fn spec_escape_attr(s: Seq<char>) -> Seq<char>
    decreases s.len(),
{
    if s.len() == 0 {
        Seq::empty()
    } else {
        spec_escape_attr(s.drop_last()) + spec_escape_attr_char(s.last())
    }
}

/// The serialized attribute list, in order, each double-quoted.
pub open spec fn spec_serialize_attrs(attrs: Seq<Attribute>) -> Seq<char>
    decreases attrs.len(),
{
    if attrs.len() == 0 {
        Seq::empty()
    } else {
        spec_serialize_attrs(attrs.drop_last()) + " "@ + attrs.last().name@ + "=\""@
            + spec_escape_attr(attrs.last().value@) + "\""@
    }
}

/// The serialized DOCTYPE declaration.
pub open spec fn spec_serialize_doctype(
    name: Option<String>,
    public_id: Option<String>,
    system_id: Option<String>,
) -> Seq<char> {
    let name_part = match name {
        Some(n) => " "@ + n@,
        None => Seq::empty(),
    };
    let id_part = match public_id {
        Some(p) => " PUBLIC \""@ + spec_escape_attr(p@) + "\""@ + (match system_id {
            Some(s) => " \""@ + spec_escape_attr(s@) + "\""@,
            None => Seq::empty(),
        }),
        None => (match system_id {
            Some(s) => " SYSTEM \""@ + spec_escape_attr(s@) + "\""@,
            None => Seq::empty(),
        }),
    };
    "<!DOCTYPE"@ + name_part + id_part + ">"@
}

/// What a node contributes before its children.
pub open spec fn spec_node_head(doc: Document, id: int) -> Seq<char> {
    match doc.nodes@[id].data {
        NodeData::Document => Seq::empty(),
        NodeData::DocumentType { name, public_id, system_id } => spec_serialize_doctype(
            name,
            public_id,
            system_id,
        ),
        NodeData::Element { name, attributes, .. } => "<"@ + name@ + spec_serialize_attrs(
            attributes@,
        ) + ">"@,
        NodeData::Text { data } => spec_escape_text(data@),
        NodeData::Comment { data } => "<!--"@ + data@ + "-->"@,
    }
}

/// What a node contributes after its children: the end tag of a non-void
/// element, nothing otherwise.
pub open spec fn spec_node_tail(doc: Document, id: int) -> Seq<char> {
    match doc.nodes@[id].data {
        NodeData::Element { name, .. } => if spec_is_void_tag(name@) {
            Seq::empty()
        } else {
            "</"@ + name@ + ">"@
        },
        _ => Seq::empty(),
    }
}

/// The markup of the node at `id`: its head, its children in order, its
/// tail.
pub open spec fn spec_serialize_node(doc: Document, id: int) -> Seq<char>
    decreases doc.nodes@.len() - id, 1int, 0int,
        when doc.wf() && 0 <= id < doc.nodes@.len()
{
    spec_node_head(doc, id) + spec_serialize_children(
        doc,
        id,
        doc.nodes@[id].children@.len() as int,
    ) + spec_node_tail(doc, id)
}

/// The markup of the first `i` children of the node at `id`.
pub open spec fn spec_serialize_children(doc: Document, id: int, i: int) -> Seq<char>
    decreases doc.nodes@.len() - id, 0int, i,
        when doc.wf() && 0 <= id < doc.nodes@.len() && i <= doc.nodes@[id].children@.len()
        via spec_serialize_children_decreases
{
    if i <= 0 {
        Seq::empty()
    } else {
        spec_serialize_children(doc, id, i - 1) + spec_serialize_node(
            doc,
            doc.nodes@[id].children@[i - 1] as int,
        )
    }
}

#[via_fn]
proof fn spec_serialize_children_decreases(doc: Document, id: int, i: int) {
    if 0 < i <= doc.nodes@[id].children@.len() && doc.wf() && 0 <= id < doc.nodes@.len() {
        assert(doc.node_ok(id));
    }
}

/// Appends `s` with `&`, `<` and `>` escaped.
fn append_escaped_text(out: &mut String, s: &str)
    ensures
        final(out)@ == old(out)@ + spec_escape_text(s@),
{
    let n = s.unicode_len();
    let mut i: usize = 0;
    while i < n
        invariant
            i <= n,
            n == s@.len(),
            out@ == old(out)@ + spec_escape_text(s@.take(i as int)),
        decreases n - i,
    {
        let c = s.get_char(i);
        if c == '&' {
            append_str(out, "&amp;");
        } else if c == '<' {
            append_str(out, "&lt;");
        } else if c == '>' {
            append_str(out, "&gt;");
        } else {
            push_char(out, c);
        }
        i += 1;
        proof {
            assert(s@.take(i as int).drop_last() =~= s@.take(i - 1));
            assert(s@.take(i as int).last() == s@[i - 1]);
        }
    }
    proof {
        assert(s@.take(n as int) =~= s@);
    }
}

/// Appends `s` with `&` and `"` escaped, for a double-quoted attribute
/// value.
fn append_escaped_attr(out: &mut String, s: &str)
    ensures
        final(out)@ == old(out)@ + spec_escape_attr(s@),
{
    let n = s.unicode_len();
    let mut i: usize = 0;
    while i < n
        invariant
            i <= n,
            n == s@.len(),
            out@ == old(out)@ + spec_escape_attr(s@.take(i as int)),
        decreases n - i,
    {
        let c = s.get_char(i);
        if c == '&' {
            append_str(out, "&amp;");
        } else if c == '"' {
            append_str(out, "&quot;");
        } else {
            push_char(out, c);
        }
        i += 1;
        proof {
            assert(s@.take(i as int).drop_last() =~= s@.take(i - 1));
            assert(s@.take(i as int).last() == s@[i - 1]);
        }
    }
    proof {
        assert(s@.take(n as int) =~= s@);
    }
}

/// Appends the markup of the node at `id` and of everything below it.
fn serialize_node(doc: &Document, id: usize, out: &mut String)
    requires
        doc.wf(),
        id < doc.nodes@.len(),
    ensures
        final(out)@ == old(out)@ + spec_serialize_node(*doc, id as int),
    decreases doc.nodes@.len() - id,
{
    match &doc.nodes[id].data {
        NodeData::Document => {},
        NodeData::DocumentType { name, public_id, system_id } => {
            append_str(out, "<!DOCTYPE");
            if let Some(n) = name {
                append_str(out, " ");
                append_str(out, n.as_str());
            }
            if let Some(p) = public_id {
                append_str(out, " PUBLIC \"");
                append_escaped_attr(out, p.as_str());
                append_str(out, "\"");
                if let Some(s) = system_id {
                    append_str(out, " \"");
                    append_escaped_attr(out, s.as_str());
                    append_str(out, "\"");
                }
            } else if let Some(s) = system_id {
                append_str(out, " SYSTEM \"");
                append_escaped_attr(out, s.as_str());
                append_str(out, "\"");
            }
            append_str(out, ">");
        },
        NodeData::Element { name, attributes, .. } => {
            append_str(out, "<");
            append_str(out, name.as_str());
            let ghost base = out@;
            let mut a: usize = 0;
            let natt = attributes.len();
            while a < natt
                invariant
                    a <= natt,
                    natt == attributes@.len(),
                    out@ == base + spec_serialize_attrs(attributes@.take(a as int)),
                decreases natt - a,
            {
                append_str(out, " ");
                append_str(out, attributes[a].name.as_str());
                append_str(out, "=\"");
                append_escaped_attr(out, attributes[a].value.as_str());
                append_str(out, "\"");
                a += 1;
                proof {
                    assert(attributes@.take(a as int).drop_last() =~= attributes@.take(a - 1));
                    assert(attributes@.take(a as int).last() == attributes@[a - 1]);
                    assert(out@ =~= base + spec_serialize_attrs(attributes@.take(a as int)));
                }
            }
            proof {
                assert(attributes@.take(natt as int) =~= attributes@);
            }
            append_str(out, ">");
        },
        NodeData::Text { data } => {
            append_escaped_text(out, data.as_str());
        },
        NodeData::Comment { data } => {
            append_str(out, "<!--");
            append_str(out, data.as_str());
            append_str(out, "-->");
        },
    }
    proof {
        assert(out@ =~= old(out)@ + spec_node_head(*doc, id as int));
    }
    let ghost mid = out@;
    let nchild = doc.nodes[id].children.len();
    let mut i: usize = 0;
    while i < nchild
        invariant
            i <= nchild,
            nchild == doc.nodes@[id as int].children@.len(),
            doc.wf(),
            id < doc.nodes@.len(),
            out@ == mid + spec_serialize_children(*doc, id as int, i as int),
        decreases nchild - i,
    {
        let c = doc.nodes[id].children[i];
        proof {
            assert(doc.node_ok(id as int));
        }
        serialize_node(doc, c, out);
        i += 1;
        proof {
            assert(out@ =~= mid + spec_serialize_children(*doc, id as int, i as int));
        }
    }
    let close = match &doc.nodes[id].data {
        NodeData::Element { name, .. } => !is_void_tag(name.as_str()),
        _ => false,
    };
    if close {
        match &doc.nodes[id].data {
            NodeData::Element { name, .. } => {
                append_str(out, "</");
                append_str(out, name.as_str());
                append_str(out, ">");
            },
            _ => {},
        }
    }
    proof {
        assert(final(out)@ =~= old(out)@ + spec_serialize_node(*doc, id as int));
    }
}

/// The markup of the whole document: exactly the spec-level serialization
/// of the root.
pub fn serialize(doc: &Document) -> (out: String)
    requires
        doc.wf(),
    ensures
        out@ == spec_serialize_node(*doc, 0),
{
    let mut out = String::new();
    serialize_node(doc, 0, &mut out);
    out
}

} // verus!
