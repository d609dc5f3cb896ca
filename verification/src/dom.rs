//! The document model: an arena of typed nodes addressed by stable
//! indices, owned by the `Document`.
//!
//! The open-elements stack and other structures hold indices into the
//! arena, never owning references, which rules out aliasing between the
//! two. A node keeps a back-reference to its parent for traversal only;
//! children always carry larger indices than their parent, which makes the
//! tree acyclic by construction.

use crate::quirks::QuirksMode;
use crate::text::push_char;
use crate::tokens::Attribute;
use vstd::prelude::*;

verus! {

/// What a node is: the document root, a DOCTYPE record, an element, a text
/// run or a comment.
#[derive(Debug)]
pub enum NodeData {
    Document,
    DocumentType { name: Option<String>, public_id: Option<String>, system_id: Option<String> },
    Element { name: String, namespace: String, attributes: Vec<Attribute> },
    Text { data: String },
    Comment { data: String },
}

/// The characters a text node holds; empty for any other node.
pub open spec fn text_data(d: NodeData) -> Seq<char> {
    match d {
        NodeData::Text { data } => data@,
        _ => Seq::empty(),
    }
}

/// One node of the arena: its data, its parent (a back-reference only) and
/// its children in document order.
pub struct Node {
    pub data: NodeData,
    pub parent: Option<usize>,
    pub children: Vec<usize>,
}

/// The owned output of parsing: the node arena rooted at index zero, and
/// the quirks mode the classifier decided.
pub struct Document {
    pub nodes: Vec<Node>,
    pub quirks_mode: QuirksMode,
}

/// The outcome of appending `c` onto the parent's last child, which is a
/// text node: that node's text grows by exactly `c` and nothing else moves.
pub open spec fn text_merged(pre: Document, post: Document, parent: int, c: char) -> bool {
    let last = pre.nodes@[parent].children@.last() as int;
    &&& post.nodes@.len() == pre.nodes@.len()
    &&& (forall|j: int|
        0 <= j < pre.nodes@.len() && j != last ==> post.nodes@[j] == pre.nodes@[j])
    &&& post.nodes@[last].parent == pre.nodes@[last].parent
    &&& post.nodes@[last].children@ == pre.nodes@[last].children@
    &&& post.nodes@[last].data is Text
    &&& text_data(post.nodes@[last].data) == text_data(pre.nodes@[last].data).push(c)
}

/// The outcome of appending a fresh text node holding exactly `c` as the
/// parent's new last child.
pub open spec fn text_appended(pre: Document, post: Document, parent: int, c: char) -> bool {
    let id = pre.nodes@.len() as int;
    &&& post.nodes@.len() == pre.nodes@.len() + 1
    &&& post.nodes@[id].data is Text
    &&& text_data(post.nodes@[id].data) == Seq::empty().push(c)
    &&& post.nodes@[id].parent == Some(parent as usize)
    &&& post.nodes@[id].children@.len() == 0
    &&& (forall|j: int|
        0 <= j < pre.nodes@.len() && j != parent ==> post.nodes@[j] == pre.nodes@[j])
    &&& post.nodes@[parent].data == pre.nodes@[parent].data
    &&& post.nodes@[parent].children@ == pre.nodes@[parent].children@.push(id as usize)
}

impl Document {
    /// Structural soundness of one node: the parent is older, the children
    /// are younger and inside the arena.
    pub open spec fn node_ok(&self, i: int) -> bool {
        &&& (self.nodes@[i].parent is Some ==> self.nodes@[i].parent->0 < i)
        &&& forall|j: int|
            0 <= j < self.nodes@[i].children@.len() ==> i < #[trigger] self.nodes@[i].children@[j]
                < self.nodes@.len()
    }

    /// The arena holds the document root at index zero and every node is
    /// structurally sound.
    pub open spec fn wf(&self) -> bool {
        &&& self.nodes@.len() >= 1
        &&& self.nodes@[0].data is Document
        &&& self.nodes@[0].parent is None
        &&& forall|i: int| 0 <= i < self.nodes@.len() ==> self.node_ok(i)
    }

    /// Whether the parent's last child is a text node, so that one more
    /// character merges into it rather than opening a new node.
    pub open spec fn has_text_last_child(&self, parent: int) -> bool {
        let kids = self.nodes@[parent].children@;
        kids.len() > 0 && self.nodes@[kids.last() as int].data is Text
    }

    /// The element name at an index, for contracts over the open-elements
    /// stack.
    pub open spec fn element_name(&self, id: int) -> Seq<char> {
        match self.nodes@[id].data {
            NodeData::Element { name, .. } => name@,
            _ => Seq::empty(),
        }
    }

    /// An empty document: the root node and no quirks.
    pub fn new() -> (d: Document)
        ensures
            d.wf(),
            d.nodes@.len() == 1,
            d.quirks_mode == QuirksMode::NoQuirks,
    {
        let mut nodes: Vec<Node> = Vec::new();
        nodes.push(Node { data: NodeData::Document, parent: None, children: Vec::new() });
        Document { nodes, quirks_mode: QuirksMode::NoQuirks }
    }

    /// Records the quirks mode the classifier decided.
    pub fn set_quirks(&mut self, q: QuirksMode)
        requires
            old(self).wf(),
        ensures
            final(self).wf(),
            final(self).nodes@ == old(self).nodes@,
            final(self).quirks_mode == q,
    {
        self.quirks_mode = q;
        proof {
            assert forall|i: int| 0 <= i < self.nodes@.len() implies self.node_ok(i) by {
                assert(old(self).node_ok(i));
            }
        }
    }

    /// Appends a new node as the last child of `parent` and hands back its
    /// index. Every older node keeps its data; only the parent gains a
    /// child.
    pub fn append_child(&mut self, parent: usize, data: NodeData) -> (id: usize)
        requires
            old(self).wf(),
            parent < old(self).nodes@.len(),
        ensures
            final(self).wf(),
            final(self).quirks_mode == old(self).quirks_mode,
            id == old(self).nodes@.len(),
            final(self).nodes@.len() == old(self).nodes@.len() + 1,
            final(self).nodes@[id as int].data == data,
            final(self).nodes@[id as int].parent == Some(parent),
            final(self).nodes@[id as int].children@.len() == 0,
            forall|j: int|
                0 <= j < old(self).nodes@.len() && j != parent ==> final(self).nodes@[j] == old(
                    self,
                ).nodes@[j],
            final(self).nodes@[parent as int].data == old(self).nodes@[parent as int].data,
            final(self).nodes@[parent as int].parent == old(self).nodes@[parent as int].parent,
            final(self).nodes@[parent as int].children@ == old(
                self,
            ).nodes@[parent as int].children@.push(id),
    {
        let id = self.nodes.len();
        self.nodes.push(Node { data, parent: Some(parent), children: Vec::new() });
        self.nodes[parent].children.push(id);
        proof {
            assert forall|i: int| 0 <= i < self.nodes@.len() implies self.node_ok(i) by {
                assert(old(self).wf());
                if i < old(self).nodes@.len() && i != parent {
                    assert(old(self).node_ok(i));
                } else if i == parent {
                    assert(old(self).node_ok(i));
                    assert(self.nodes@[i].children@ == old(self).nodes@[i].children@.push(
                        id as usize,
                    ));
                }
            }
        }
        id
    }

    /// Appends one character of text under `parent`: onto the last child
    /// when that is already a text node, else as a fresh text node. The
    /// data of every element node is untouched.
    pub fn append_text_char(&mut self, parent: usize, c: char)
        requires
            old(self).wf(),
            parent < old(self).nodes@.len(),
        ensures
            final(self).wf(),
            final(self).quirks_mode == old(self).quirks_mode,
            old(self).nodes@.len() <= final(self).nodes@.len(),
            old(self).has_text_last_child(parent as int) ==> text_merged(
                *old(self),
                *final(self),
                parent as int,
                c,
            ),
            !old(self).has_text_last_child(parent as int) ==> text_appended(
                *old(self),
                *final(self),
                parent as int,
                c,
            ),
            forall|j: int|
                0 <= j < old(self).nodes@.len() && (old(self).nodes@[j].data is Element || old(
                    self,
                ).nodes@[j].data is Document) ==> final(self).nodes@[j].data == old(
                    self,
                ).nodes@[j].data,
    {
        let nchild = self.nodes[parent].children.len();
        if nchild > 0 {
            let last = self.nodes[parent].children[nchild - 1];
            proof {
                assert(old(self).node_ok(parent as int));
            }
            let is_text = match &self.nodes[last].data {
                NodeData::Text { .. } => true,
                _ => false,
            };
            if is_text {
                let mut taken = NodeData::Text { data: String::new() };
                core::mem::swap(&mut taken, &mut self.nodes[last].data);
                let grown = match taken {
                    NodeData::Text { data } => {
                        let mut data = data;
                        push_char(&mut data, c);
                        NodeData::Text { data }
                    },
                    other => other,
                };
                self.nodes[last].data = grown;
                proof {
                    assert forall|i: int| 0 <= i < self.nodes@.len() implies self.node_ok(i) by {
                        assert(old(self).node_ok(i));
                        assert(self.nodes@[i].children@ == old(self).nodes@[i].children@);
                    }
                }
                return;
            }
        }
        let mut data = String::new();
        push_char(&mut data, c);
        self.append_child(parent, NodeData::Text { data });
    }
}

} // verus!
