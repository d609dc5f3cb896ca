//! The tree builder: consumes one token at a time, dispatches on the
//! current insertion mode, and grows the document tree, the open-elements
//! stack and the parse-error list.
//!
//! A token may be reprocessed under a new mode; every such reprocessing
//! changes mode or stack, and the chain is bounded. The builder answers
//! each token with one instruction for the tokenizer: whether to read the
//! coming characters as raw text (after `<script>`, `<style>` or
//! `<title>`).
//!
//! The stack discipline is stated over a small model: `stack_step` is the
//! effect one ordinary tag has on the stack of open element names, and the
//! builder's contract ties `process_token` to it; the law
//! `lemma_nested_fragment_restores_stack` then shows that a well-formed
//! fragment of nested tags leaves the stack exactly as it was.

use crate::dom::{text_appended, text_merged, Document, NodeData};
use crate::quirks::{
    identify_quirks_mode, opt_lower, opt_view, spec_classify, QuirksMode,
};
use crate::text::str_eq;
use crate::tokens::{ParseError, Token};
use vstd::prelude::*;

verus! {

/// The single source of truth for how the next token is dispatched.
#[derive(Clone, Copy, Debug, PartialEq, Eq, Structural)]
pub enum InsertionMode {
    Initial,
    BeforeHtml,
    BeforeHead,
    InHead,
    AfterHead,
    InBody,
    Text,
    AfterBody,
    AfterAfterBody,
}

/// The effect of one tag on the stack of open element names: the model
/// the builder's contract speaks of.
pub enum TagOp {
    Open(Seq<char>),
    Close(Seq<char>),
}

/// One step of the stack model: a start tag pushes its name; an end tag
/// whose name matches the current node pops it, and otherwise leaves the
/// stack alone.
pub open spec fn stack_step(names: Seq<Seq<char>>, op: TagOp) -> Seq<Seq<char>> {
    match op {
        TagOp::Open(n) => names.push(n),
        TagOp::Close(n) => if names.len() > 0 && names.last() == n {
            names.drop_last()
        } else {
            names
        },
    }
}

/// The stack model folded over a whole sequence of tags.
pub open spec fn stack_run(names: Seq<Seq<char>>, ops: Seq<TagOp>) -> Seq<Seq<char>>
    decreases ops.len(),
{
    if ops.len() == 0 {
        names
    } else {
        stack_run(stack_step(names, ops[0]), ops.skip(1))
    }
}

/// The start tags of a nested fragment, outermost first.
pub open spec fn open_ops(ns: Seq<Seq<char>>) -> Seq<TagOp>
    decreases ns.len(),
{
    if ns.len() == 0 {
        Seq::empty()
    } else {
        open_ops(ns.drop_last()).push(TagOp::Open(ns.last()))
    }
}

/// The matching end tags of the same fragment, innermost first.
pub open spec fn close_ops(ns: Seq<Seq<char>>) -> Seq<TagOp>
    decreases ns.len(),
{
    if ns.len() == 0 {
        Seq::empty()
    } else {
        seq![TagOp::Close(ns.last())] + close_ops(ns.drop_last())
    }
}

/// Folding a concatenation is folding one part after the other.
pub proof fn lemma_stack_run_append(names: Seq<Seq<char>>, a: Seq<TagOp>, b: Seq<TagOp>)
    ensures
        stack_run(names, a + b) == stack_run(stack_run(names, a), b),
    decreases a.len(),
{
    if a.len() == 0 {
        assert(a + b =~= b);
    } else {
        assert((a + b)[0] == a[0]);
        assert((a + b).skip(1) =~= a.skip(1) + b);
        lemma_stack_run_append(stack_step(names, a[0]), a.skip(1), b);
    }
}

/// The stack-discipline law: for any well-formed fragment of nested tags
/// (each start tag later closed by its matching end tag, innermost first),
/// the stack of open element names after processing the whole fragment is
/// exactly the stack from before it.
pub proof fn lemma_nested_fragment_restores_stack(names: Seq<Seq<char>>, ns: Seq<Seq<char>>)
    ensures
        stack_run(names, open_ops(ns) + close_ops(ns)) == names,
    decreases ns.len(),
{
    if ns.len() == 0 {
        assert(open_ops(ns) + close_ops(ns) =~= Seq::<TagOp>::empty());
    } else {
        let dl = ns.drop_last();
        let l = ns.last();
        let middle = seq![TagOp::Open(l), TagOp::Close(l)];
        assert(open_ops(ns) + close_ops(ns) =~= open_ops(dl) + (middle + close_ops(dl)));
        lemma_stack_run_append(names, open_ops(dl), middle + close_ops(dl));
        let m = stack_run(names, open_ops(dl));
        lemma_stack_run_append(m, middle, close_ops(dl));
        // Opening and at once closing the innermost tag leaves the stack
        // where it was.
        assert(stack_run(m, middle) == m) by {
            let pushed = stack_step(m, TagOp::Open(l));
            assert(middle[0] == TagOp::Open(l));
            assert(stack_run(m, middle) == stack_run(pushed, middle.skip(1)));
            assert(middle.skip(1) =~= seq![TagOp::Close(l)]);
            let single = seq![TagOp::Close(l)];
            assert(single[0] == TagOp::Close(l));
            assert(single.skip(1).len() == 0);
            assert(stack_run(stack_step(pushed, TagOp::Close(l)), single.skip(1)) == stack_step(
                pushed,
                TagOp::Close(l),
            ));
            assert(stack_run(pushed, single) == stack_step(pushed, TagOp::Close(l)));
            assert(pushed == m.push(l));
            assert(pushed.len() > 0 && pushed.last() == l);
            assert(stack_step(pushed, TagOp::Close(l)) =~= m);
        }
        lemma_nested_fragment_restores_stack(names, dl);
        lemma_stack_run_append(names, open_ops(dl), close_ops(dl));
    }
}

/// An element that never takes an end tag.
pub open spec fn spec_is_void_tag(n: Seq<char>) -> bool {
    ||| n == "area"@
    ||| n == "base"@
    ||| n == "basefont"@
    ||| n == "bgsound"@
    ||| n == "br"@
    ||| n == "col"@
    ||| n == "embed"@
    ||| n == "hr"@
    ||| n == "img"@
    ||| n == "input"@
    ||| n == "keygen"@
    ||| n == "link"@
    ||| n == "meta"@
    ||| n == "param"@
    ||| n == "source"@
    ||| n == "track"@
    ||| n == "wbr"@
}

/// Void-element test.
pub fn is_void_tag(name: &str) -> (r: bool)
    ensures
        r == spec_is_void_tag(name@),
{
    str_eq(name, "area") || str_eq(name, "base") || str_eq(name, "basefont") || str_eq(
        name,
        "bgsound",
    ) || str_eq(name, "br") || str_eq(name, "col") || str_eq(name, "embed") || str_eq(name, "hr")
        || str_eq(name, "img") || str_eq(name, "input") || str_eq(name, "keygen") || str_eq(
        name,
        "link",
    ) || str_eq(name, "meta") || str_eq(name, "param") || str_eq(name, "source") || str_eq(
        name,
        "track",
    ) || str_eq(name, "wbr")
}

/// An element that triggers raw-text reading of its contents.
pub open spec fn spec_is_rawtext_tag(n: Seq<char>) -> bool {
    n == "script"@ || n == "style"@ || n == "title"@
}

/// Raw-text-element test.
pub fn is_rawtext_tag(name: &str) -> (r: bool)
    ensures
        r == spec_is_rawtext_tag(name@),
{
    str_eq(name, "script") || str_eq(name, "style") || str_eq(name, "title")
}

/// An ordinary tag: one with none of the structural or void or raw-text
/// roles, so that in the body it simply pushes and pops the stack.
pub open spec fn spec_is_ordinary_tag(n: Seq<char>) -> bool {
    &&& n != "html"@
    &&& n != "head"@
    &&& n != "body"@
    &&& !spec_is_rawtext_tag(n)
    &&& !spec_is_void_tag(n)
}

/// The tag name a start or end tag token carries.
pub open spec fn tag_name_of(t: Token) -> Seq<char> {
    match t {
        Token::StartTag { name, .. } => name@,
        Token::EndTag { name } => name@,
        _ => Seq::empty(),
    }
}

/// A start tag of an ordinary element.
pub open spec fn is_ordinary_start(t: Token) -> bool {
    (t matches Token::StartTag { .. }) && spec_is_ordinary_tag(tag_name_of(t))
}

/// An end tag of an ordinary element.
pub open spec fn is_ordinary_end(t: Token) -> bool {
    (t matches Token::EndTag { .. }) && spec_is_ordinary_tag(tag_name_of(t))
}

/// The quirks mode a DOCTYPE token's fields classify to.
pub open spec fn doctype_classify(t: Token) -> QuirksMode {
    match t {
        Token::Doctype { name, public_id, system_id, force_quirks } => spec_classify(
            opt_view(name),
            opt_lower(opt_view(public_id)),
            opt_lower(opt_view(system_id)),
            force_quirks,
        ),
        _ => QuirksMode::Quirks,
    }
}

/// The tree builder: the document under construction, the open-elements
/// stack of arena indices, the insertion mode and the one remembered when
/// raw text begins, and the structural parse errors.
pub struct TreeBuilder {
    pub doc: Document,
    pub open_elements: Vec<usize>,
    pub mode: InsertionMode,
    pub original_mode: InsertionMode,
    pub errors: Vec<ParseError>,
    pub location: usize,
    pub done: bool,
}

/// The arena index the builder inserts under: the current node, or the
/// document root with nothing open.
pub open spec fn spec_insertion_parent(tb: TreeBuilder) -> int {
    if tb.open_elements@.len() > 0 {
        tb.open_elements@.last() as int
    } else {
        0
    }
}

/// What one character does to the document in body content: a null is a
/// recorded error and nothing more; any other character joins the text
/// under the current node, merging into its last text child or opening a
/// fresh one.
pub open spec fn character_effect(pre: TreeBuilder, c: char, post: TreeBuilder) -> bool {
    ||| (c == '\0' && post.doc == pre.doc)
    ||| (c != '\0' && pre.doc.has_text_last_child(spec_insertion_parent(pre)) && text_merged(
        pre.doc,
        post.doc,
        spec_insertion_parent(pre),
        c,
    ))
    ||| (c != '\0' && !pre.doc.has_text_last_child(spec_insertion_parent(pre)) && text_appended(
        pre.doc,
        post.doc,
        spec_insertion_parent(pre),
        c,
    ))
}

/// The contract one token is held to. An ordinary start tag in the body
/// pushes its name; an ordinary end tag naming the current node pops it;
/// a character joins the text and a comment becomes a comment node under
/// the current node; a DOCTYPE in the initial mode decides the quirks
/// mode by the classifier and moves on, any other token leaving the
/// initial mode defaults the document to quirks, so the quirks mode is
/// decided exactly once, at the one step that leaves the initial mode.
/// Everything else recovers as the grammar prescribes without a stated
/// stack effect.
pub open spec fn token_effect(pre: TreeBuilder, t: Token, post: TreeBuilder) -> bool {
    &&& (pre.mode == InsertionMode::InBody && is_ordinary_start(t) ==> post.mode
        == InsertionMode::InBody && post.stack_names() == stack_step(
        pre.stack_names(),
        TagOp::Open(tag_name_of(t)),
    ))
    &&& (pre.mode == InsertionMode::InBody && is_ordinary_end(t) && pre.stack_names().len() > 0
        && pre.stack_names().last() == tag_name_of(t) ==> post.mode == InsertionMode::InBody
        && post.stack_names() == stack_step(pre.stack_names(), TagOp::Close(tag_name_of(t))))
    &&& (t matches Token::Character { data } ==> (pre.mode == InsertionMode::InBody ==> post.mode
        == InsertionMode::InBody && post.open_elements@ == pre.open_elements@ && character_effect(
        pre,
        data,
        post,
    )))
    &&& (t matches Token::Comment { data } ==> (pre.mode == InsertionMode::InBody ==> post.mode
        == InsertionMode::InBody && post.open_elements@ == pre.open_elements@
        && post.doc.nodes@.len() == pre.doc.nodes@.len() + 1
        && post.doc.nodes@[pre.doc.nodes@.len() as int].data == (NodeData::Comment { data })
        && post.doc.nodes@[pre.doc.nodes@.len() as int].parent == Some(
        spec_insertion_parent(pre) as usize,
    )))
    &&& (pre.mode == InsertionMode::Initial && (t matches Token::Doctype { .. })
        ==> post.doc.quirks_mode == doctype_classify(t) && post.mode == InsertionMode::BeforeHtml)
    &&& (pre.mode == InsertionMode::Initial && !(t matches Token::Doctype { .. }) ==> ((post.mode
        == InsertionMode::Initial && post.doc.quirks_mode == pre.doc.quirks_mode) || (post.mode
        != InsertionMode::Initial && post.doc.quirks_mode == QuirksMode::Quirks)))
    &&& (pre.mode == InsertionMode::Initial && (t matches Token::EndOfFile) ==> post.mode
        != InsertionMode::Initial)
}

/// Whether a token falls under one of the exactly-stated cases of
/// `token_effect` that the builder settles without reprocessing.
pub open spec fn token_effect_applies(pre: TreeBuilder, t: Token) -> bool {
    ||| (pre.mode == InsertionMode::InBody && is_ordinary_start(t))
    ||| (pre.mode == InsertionMode::InBody && is_ordinary_end(t) && pre.stack_names().len() > 0
        && pre.stack_names().last() == tag_name_of(t))
    ||| (pre.mode == InsertionMode::InBody && (t matches Token::Character { .. }))
    ||| (pre.mode == InsertionMode::InBody && (t matches Token::Comment { .. }))
    ||| (pre.mode == InsertionMode::Initial && (t matches Token::Doctype { .. }))
}

impl TreeBuilder {
    /// Every open element is an element node inside the arena, and the
    /// remembered mode is never the initial one (raw text only begins
    /// inside the head or the body).
    pub open spec fn wf(&self) -> bool {
        &&& self.doc.wf()
        &&& self.original_mode != InsertionMode::Initial
        &&& forall|k: int|
            0 <= k < self.open_elements@.len() ==> (#[trigger] self.open_elements@[k])
                < self.doc.nodes@.len() && self.doc.nodes@[self.open_elements@[k] as int].data
                is Element
    }

    /// The names of the open elements, bottom first.
    pub open spec fn stack_names(&self) -> Seq<Seq<char>> {
        Seq::new(
            self.open_elements@.len() as nat,
            |i: int| self.doc.element_name(self.open_elements@[i] as int),
        )
    }

    /// A builder over an empty document, in the initial mode.
    pub fn new() -> (tb: TreeBuilder)
        ensures
            tb.wf(),
            tb.mode == InsertionMode::Initial,
            tb.open_elements@.len() == 0,
            tb.doc.nodes@.len() == 1,
            tb.doc.quirks_mode == QuirksMode::NoQuirks,
            tb.errors@.len() == 0,
            !tb.done,
    {
        TreeBuilder {
            doc: Document::new(),
            open_elements: Vec::new(),
            mode: InsertionMode::Initial,
            original_mode: InsertionMode::InBody,
            errors: Vec::new(),
            location: 0,
            done: false,
        }
    }

    /// Records a structural parse error at the stream location the parser
    /// last announced: one entry is appended and nothing already recorded
    /// moves.
    fn err(&mut self, msg: &str)
        requires
            old(self).wf(),
        ensures
            *final(self) == (TreeBuilder { errors: final(self).errors, ..*old(self) }),
            final(self).wf(),
            final(self).errors@.len() == old(self).errors@.len() + 1,
            final(self).errors@.subrange(0, old(self).errors@.len() as int) == old(self).errors@,
            final(self).errors@.last().message@ == msg@,
            final(self).errors@.last().location == old(self).location,
    {
        let location = self.location;
        self.errors.push(ParseError { message: msg.to_owned(), location });
        proof {
            assert(self.errors@.subrange(0, old(self).errors@.len() as int) =~= old(self).errors@);
        }
    }

    /// The arena index new nodes are inserted under: the current node, or
    /// the document root with nothing open.
    fn insertion_parent(&self) -> (p: usize)
        requires
            self.wf(),
        ensures
            p < self.doc.nodes@.len(),
            p as int == spec_insertion_parent(*self),
    {
        let n = self.open_elements.len();
        if n > 0 {
            self.open_elements[n - 1]
        } else {
            0
        }
    }

    /// Inserts an element under the current node, onto the stack when
    /// `push` is set. The names already on the stack stay what they were.
    fn insert_element(&mut self, name: String, attributes: Vec<crate::tokens::Attribute>, push: bool)
        requires
            old(self).wf(),
        ensures
            final(self).wf(),
            final(self).mode == old(self).mode,
            final(self).original_mode == old(self).original_mode,
            final(self).done == old(self).done,
            final(self).doc.quirks_mode == old(self).doc.quirks_mode,
            push ==> final(self).stack_names() == old(self).stack_names().push(name@),
            !push ==> final(self).stack_names() == old(self).stack_names(),
            final(self).open_elements@.len() == old(self).open_elements@.len() + (if push {
                1int
            } else {
                0int
            }),
    {
        let parent = self.insertion_parent();
        let data = NodeData::Element { name, namespace: "html".to_owned(), attributes };
        let id = self.doc.append_child(parent, data);
        if push {
            self.open_elements.push(id);
        }
        proof {
            assert forall|k: int|
                0 <= k < old(self).open_elements@.len() implies self.doc.element_name(
                old(self).open_elements@[k] as int,
            ) == old(self).doc.element_name(old(self).open_elements@[k] as int) by {
                assert(old(self).wf());
            }
            if push {
                assert(self.stack_names() =~= old(self).stack_names().push(
                    self.doc.element_name(id as int),
                ));
            } else {
                assert(self.stack_names() =~= old(self).stack_names());
            }
        }
    }

    /// Inserts a comment node under the given parent; the stack, the
    /// modes and every existing node stay untouched.
    fn insert_comment_at(&mut self, parent: usize, data: String)
        requires
            old(self).wf(),
            parent < old(self).doc.nodes@.len(),
        ensures
            final(self).wf(),
            final(self).mode == old(self).mode,
            final(self).original_mode == old(self).original_mode,
            final(self).done == old(self).done,
            final(self).open_elements@ == old(self).open_elements@,
            final(self).stack_names() == old(self).stack_names(),
            final(self).doc.quirks_mode == old(self).doc.quirks_mode,
            final(self).doc.nodes@.len() == old(self).doc.nodes@.len() + 1,
            final(self).doc.nodes@[old(self).doc.nodes@.len() as int].data == (NodeData::Comment {
                data,
            }),
            final(self).doc.nodes@[old(self).doc.nodes@.len() as int].parent == Some(parent),
    {
        self.doc.append_child(parent, NodeData::Comment { data });
        proof {
            assert forall|k: int|
                0 <= k < old(self).open_elements@.len() implies self.doc.element_name(
                old(self).open_elements@[k] as int,
            ) == old(self).doc.element_name(old(self).open_elements@[k] as int) by {
                assert(old(self).wf());
            }
            assert(self.stack_names() =~= old(self).stack_names());
        }
    }

    /// Appends one character of text under the current node; the stack,
    /// the modes and every element node stay untouched.
    fn insert_text(&mut self, c: char)
        requires
            old(self).wf(),
        ensures
            final(self).wf(),
            final(self).mode == old(self).mode,
            final(self).original_mode == old(self).original_mode,
            final(self).done == old(self).done,
            final(self).open_elements@ == old(self).open_elements@,
            final(self).stack_names() == old(self).stack_names(),
            final(self).doc.quirks_mode == old(self).doc.quirks_mode,
            old(self).doc.has_text_last_child(spec_insertion_parent(*old(self))) ==> text_merged(
                old(self).doc,
                final(self).doc,
                spec_insertion_parent(*old(self)),
                c,
            ),
            !old(self).doc.has_text_last_child(spec_insertion_parent(*old(self)))
                ==> text_appended(
                old(self).doc,
                final(self).doc,
                spec_insertion_parent(*old(self)),
                c,
            ),
    {
        let p = self.insertion_parent();
        self.doc.append_text_char(p, c);
        proof {
            assert forall|k: int|
                0 <= k < old(self).open_elements@.len() implies self.doc.element_name(
                old(self).open_elements@[k] as int,
            ) == old(self).doc.element_name(old(self).open_elements@[k] as int) by {
                assert(old(self).wf());
                let id = old(self).open_elements@[k] as int;
                assert(old(self).doc.nodes@[id].data is Element);
                assert(self.doc.nodes@[id].data == old(self).doc.nodes@[id].data);
            }
            assert(self.stack_names() =~= old(self).stack_names());
        }
    }

    /// Pops the stack through the nearest element of the given name; with
    /// none open of that name, records an error and pops nothing. Popping
    /// an element before its descendants are closed is an error too.
    fn pop_matching(&mut self, name: &str)
        requires
            old(self).wf(),
        ensures
            final(self).wf(),
            final(self).mode == old(self).mode,
            final(self).original_mode == old(self).original_mode,
            final(self).done == old(self).done,
            final(self).doc == old(self).doc,
            old(self).stack_names().len() > 0 && old(self).stack_names().last() == name@ ==> final(self).stack_names() == old(self).stack_names().drop_last(),
    {
        let n = self.open_elements.len();
        let top_matches = if n > 0 {
            let id = self.open_elements[n - 1];
            match &self.doc.nodes[id].data {
                NodeData::Element { name: en, .. } => str_eq(en.as_str(), name),
                _ => false,
            }
        } else {
            false
        };
        if top_matches {
            self.open_elements.pop();
            proof {
                assert(self.open_elements@ =~= old(self).open_elements@.drop_last());
                assert(self.stack_names() =~= old(self).stack_names().drop_last());
            }
            return;
        }
        // The current node does not match: search deeper, closing what
        // stands above a match.
        let mut fidx: usize = n;
        let mut k: usize = n;
        while k > 0
            invariant
                self.wf(),
                *self == *old(self),
                k <= n,
                n == self.open_elements@.len(),
            decreases k,
        {
            k -= 1;
            let id = self.open_elements[k];
            let matches_here = match &self.doc.nodes[id].data {
                NodeData::Element { name: en, .. } => str_eq(en.as_str(), name),
                _ => false,
            };
            if matches_here {
                fidx = k;
                break;
            }
        }
        if fidx < n {
            self.err("end-tag-closes-unfinished-elements");
            while self.open_elements.len() > fidx
                invariant
                    self.wf(),
                    self.doc == old(self).doc,
                    self.mode == old(self).mode,
                    self.original_mode == old(self).original_mode,
                    self.done == old(self).done,
                decreases self.open_elements@.len(),
            {
                self.open_elements.pop();
            }
        } else {
            self.err("unexpected-end-tag");
        }
    }

    /// Pops the current node, if any.
    fn pop_current(&mut self)
        requires
            old(self).wf(),
        ensures
            final(self).wf(),
            final(self).doc == old(self).doc,
            final(self).mode == old(self).mode,
            final(self).original_mode == old(self).original_mode,
            final(self).done == old(self).done,
    {
        let n = self.open_elements.len();
        if n > 0 {
            self.open_elements.pop();
        }
    }

    /// Both halves of an optional identifier: the record keeps one, the
    /// classifier reads the other.
    fn dup_opt(o: Option<String>) -> (r: (Option<String>, Option<String>))
        ensures
            opt_view(r.0) == opt_view(o),
            opt_view(r.1) == opt_view(o),
    {
        match o {
            Some(s) => {
                let c = s.clone();
                (Some(s), Some(c))
            },
            None => (None, None),
        }
    }

    /// The initial mode: waits for the DOCTYPE, classifies it, and records
    /// quirks mode; a document that reaches content first is classified
    /// quirks by default.
    fn mode_initial(&mut self, t: Token) -> (r: (Option<Token>, bool))
        requires
            old(self).wf(),
            old(self).mode == InsertionMode::Initial,
        ensures
            final(self).wf(),
            (t matches Token::Doctype { .. }) ==> final(self).doc.quirks_mode == doctype_classify(
                t,
            ) && final(self).mode == InsertionMode::BeforeHtml && r.0 is None,
            final(self).mode == InsertionMode::Initial || final(self).mode
                == InsertionMode::BeforeHtml,
            final(self).mode == InsertionMode::Initial ==> final(self).doc.quirks_mode == old(self).doc.quirks_mode && r.0 is None,
            final(self).mode != InsertionMode::Initial && !(t matches Token::Doctype { .. })
                ==> final(self).doc.quirks_mode == QuirksMode::Quirks,
            (t matches Token::EndOfFile) ==> final(self).mode == InsertionMode::BeforeHtml,
    {
        match t {
            Token::Doctype { name, public_id, system_id, force_quirks } => {
                let (pub_node, pub_cls) = Self::dup_opt(public_id);
                let (sys_node, sys_cls) = Self::dup_opt(system_id);
                let q = identify_quirks_mode(&name, pub_cls, sys_cls, force_quirks);
                self.doc.append_child(
                    0,
                    NodeData::DocumentType { name, public_id: pub_node, system_id: sys_node },
                );
                self.doc.set_quirks(q);
                self.mode = InsertionMode::BeforeHtml;
                (None, false)
            },
            Token::Comment { data } => {
                self.insert_comment_at(0, data);
                (None, false)
            },
            Token::Character { data } => {
                if crate::text::is_space(data) {
                    (None, false)
                } else {
                    self.err("missing-doctype");
                    self.doc.set_quirks(QuirksMode::Quirks);
                    self.mode = InsertionMode::BeforeHtml;
                    (Some(Token::Character { data }), false)
                }
            },
            other => {
                self.err("missing-doctype");
                self.doc.set_quirks(QuirksMode::Quirks);
                self.mode = InsertionMode::BeforeHtml;
                (Some(other), false)
            },
        }
    }

    /// Inserts the implied `html` root element.
    fn implied_html(&mut self)
        requires
            old(self).wf(),
        ensures
            final(self).wf(),
            final(self).mode == InsertionMode::BeforeHead,
            final(self).doc.quirks_mode == old(self).doc.quirks_mode,
    {
        self.insert_element("html".to_owned(), Vec::new(), true);
        self.mode = InsertionMode::BeforeHead;
    }

    /// Before the `html` element.
    fn mode_before_html(&mut self, t: Token) -> (r: (Option<Token>, bool))
        requires
            old(self).wf(),
            old(self).mode == InsertionMode::BeforeHtml,
        ensures
            final(self).wf(),
            final(self).mode != InsertionMode::Initial,
            final(self).doc.quirks_mode == old(self).doc.quirks_mode,
    {
        match t {
            Token::Doctype { .. } => {
                self.err("unexpected-doctype");
                (None, false)
            },
            Token::Comment { data } => {
                self.insert_comment_at(0, data);
                (None, false)
            },
            Token::Character { data } => {
                if crate::text::is_space(data) {
                    (None, false)
                } else {
                    self.implied_html();
                    (Some(Token::Character { data }), false)
                }
            },
            Token::StartTag { name, attributes, self_closing } => {
                if str_eq(name.as_str(), "html") {
                    self.insert_element(name, attributes, true);
                    self.mode = InsertionMode::BeforeHead;
                    (None, false)
                } else {
                    self.implied_html();
                    (Some(Token::StartTag { name, attributes, self_closing }), false)
                }
            },
            Token::EndTag { name } => {
                if str_eq(name.as_str(), "head") || str_eq(name.as_str(), "body") || str_eq(
                    name.as_str(),
                    "html",
                ) || str_eq(name.as_str(), "br") {
                    self.implied_html();
                    (Some(Token::EndTag { name }), false)
                } else {
                    self.err("unexpected-end-tag");
                    (None, false)
                }
            },
            Token::EndOfFile => {
                self.implied_html();
                (Some(Token::EndOfFile), false)
            },
        }
    }

    /// Inserts the implied `head` element.
    fn implied_head(&mut self)
        requires
            old(self).wf(),
        ensures
            final(self).wf(),
            final(self).mode == InsertionMode::InHead,
            final(self).doc.quirks_mode == old(self).doc.quirks_mode,
    {
        self.insert_element("head".to_owned(), Vec::new(), true);
        self.mode = InsertionMode::InHead;
    }

    /// Before the `head` element.
    fn mode_before_head(&mut self, t: Token) -> (r: (Option<Token>, bool))
        requires
            old(self).wf(),
            old(self).mode == InsertionMode::BeforeHead,
        ensures
            final(self).wf(),
            final(self).mode != InsertionMode::Initial,
            final(self).doc.quirks_mode == old(self).doc.quirks_mode,
    {
        match t {
            Token::Doctype { .. } => {
                self.err("unexpected-doctype");
                (None, false)
            },
            Token::Comment { data } => {
                let p = self.insertion_parent();
                self.insert_comment_at(p, data);
                (None, false)
            },
            Token::Character { data } => {
                if crate::text::is_space(data) {
                    (None, false)
                } else {
                    self.implied_head();
                    (Some(Token::Character { data }), false)
                }
            },
            Token::StartTag { name, attributes, self_closing } => {
                if str_eq(name.as_str(), "head") {
                    self.insert_element(name, attributes, true);
                    self.mode = InsertionMode::InHead;
                    (None, false)
                } else if str_eq(name.as_str(), "html") {
                    self.err("unexpected-start-tag");
                    (None, false)
                } else {
                    self.implied_head();
                    (Some(Token::StartTag { name, attributes, self_closing }), false)
                }
            },
            Token::EndTag { name } => {
                if str_eq(name.as_str(), "head") || str_eq(name.as_str(), "body") || str_eq(
                    name.as_str(),
                    "html",
                ) || str_eq(name.as_str(), "br") {
                    self.implied_head();
                    (Some(Token::EndTag { name }), false)
                } else {
                    self.err("unexpected-end-tag");
                    (None, false)
                }
            },
            Token::EndOfFile => {
                self.implied_head();
                (Some(Token::EndOfFile), false)
            },
        }
    }

    /// Leaves the head: pops it and moves on.
    fn leave_head(&mut self)
        requires
            old(self).wf(),
        ensures
            final(self).wf(),
            final(self).mode == InsertionMode::AfterHead,
            final(self).doc.quirks_mode == old(self).doc.quirks_mode,
    {
        self.pop_current();
        self.mode = InsertionMode::AfterHead;
    }

    /// Inside the `head` element.
    fn mode_in_head(&mut self, t: Token) -> (r: (Option<Token>, bool))
        requires
            old(self).wf(),
            old(self).mode == InsertionMode::InHead,
        ensures
            final(self).wf(),
            final(self).mode != InsertionMode::Initial,
            final(self).doc.quirks_mode == old(self).doc.quirks_mode,
    {
        match t {
            Token::Doctype { .. } => {
                self.err("unexpected-doctype");
                (None, false)
            },
            Token::Comment { data } => {
                let p = self.insertion_parent();
                self.insert_comment_at(p, data);
                (None, false)
            },
            Token::Character { data } => {
                if crate::text::is_space(data) {
                    self.insert_text(data);
                    (None, false)
                } else {
                    self.leave_head();
                    (Some(Token::Character { data }), false)
                }
            },
            Token::StartTag { name, attributes, self_closing } => {
                if str_eq(name.as_str(), "html") || str_eq(name.as_str(), "head") {
                    self.err("unexpected-start-tag");
                    (None, false)
                } else if str_eq(name.as_str(), "base") || str_eq(name.as_str(), "basefont")
                    || str_eq(name.as_str(), "bgsound") || str_eq(name.as_str(), "link") || str_eq(
                    name.as_str(),
                    "meta",
                ) {
                    self.insert_element(name, attributes, false);
                    (None, false)
                } else if is_rawtext_tag(name.as_str()) {
                    self.original_mode = InsertionMode::InHead;
                    self.insert_element(name, attributes, true);
                    self.mode = InsertionMode::Text;
                    (None, true)
                } else {
                    self.leave_head();
                    (Some(Token::StartTag { name, attributes, self_closing }), false)
                }
            },
            Token::EndTag { name } => {
                if str_eq(name.as_str(), "head") {
                    self.pop_current();
                    self.mode = InsertionMode::AfterHead;
                    (None, false)
                } else if str_eq(name.as_str(), "body") || str_eq(name.as_str(), "html")
                    || str_eq(name.as_str(), "br") {
                    self.leave_head();
                    (Some(Token::EndTag { name }), false)
                } else {
                    self.err("unexpected-end-tag");
                    (None, false)
                }
            },
            Token::EndOfFile => {
                self.leave_head();
                (Some(Token::EndOfFile), false)
            },
        }
    }

    /// Inserts the implied `body` element.
    fn implied_body(&mut self)
        requires
            old(self).wf(),
        ensures
            final(self).wf(),
            final(self).mode == InsertionMode::InBody,
            final(self).doc.quirks_mode == old(self).doc.quirks_mode,
    {
        self.insert_element("body".to_owned(), Vec::new(), true);
        self.mode = InsertionMode::InBody;
    }

    /// Between the head and the body.
    fn mode_after_head(&mut self, t: Token) -> (r: (Option<Token>, bool))
        requires
            old(self).wf(),
            old(self).mode == InsertionMode::AfterHead,
        ensures
            final(self).wf(),
            final(self).mode != InsertionMode::Initial,
            final(self).doc.quirks_mode == old(self).doc.quirks_mode,
    {
        match t {
            Token::Doctype { .. } => {
                self.err("unexpected-doctype");
                (None, false)
            },
            Token::Comment { data } => {
                let p = self.insertion_parent();
                self.insert_comment_at(p, data);
                (None, false)
            },
            Token::Character { data } => {
                if crate::text::is_space(data) {
                    self.insert_text(data);
                    (None, false)
                } else {
                    self.implied_body();
                    (Some(Token::Character { data }), false)
                }
            },
            Token::StartTag { name, attributes, self_closing } => {
                if str_eq(name.as_str(), "body") {
                    self.insert_element(name, attributes, true);
                    self.mode = InsertionMode::InBody;
                    (None, false)
                } else if str_eq(name.as_str(), "html") || str_eq(name.as_str(), "head") {
                    self.err("unexpected-start-tag");
                    (None, false)
                } else {
                    self.implied_body();
                    (Some(Token::StartTag { name, attributes, self_closing }), false)
                }
            },
            Token::EndTag { name } => {
                if str_eq(name.as_str(), "body") || str_eq(name.as_str(), "html") || str_eq(
                    name.as_str(),
                    "br",
                ) {
                    self.implied_body();
                    (Some(Token::EndTag { name }), false)
                } else {
                    self.err("unexpected-end-tag");
                    (None, false)
                }
            },
            Token::EndOfFile => {
                self.implied_body();
                (Some(Token::EndOfFile), false)
            },
        }
    }

    /// Inside the body.
    fn mode_in_body(&mut self, t: Token) -> (r: (Option<Token>, bool))
        requires
            old(self).wf(),
            old(self).mode == InsertionMode::InBody,
        ensures
            final(self).wf(),
            final(self).mode != InsertionMode::Initial,
            final(self).doc.quirks_mode == old(self).doc.quirks_mode,
            is_ordinary_start(t) ==> final(self).mode == InsertionMode::InBody && final(self).stack_names() == stack_step(old(self).stack_names(), TagOp::Open(tag_name_of(t)))
                && r.0 is None,
            is_ordinary_end(t) && old(self).stack_names().len() > 0 && old(self).stack_names().last() == tag_name_of(t) ==> final(self).mode == InsertionMode::InBody
                && final(self).stack_names() == stack_step(
                old(self).stack_names(),
                TagOp::Close(tag_name_of(t)),
            ) && r.0 is None,
            t matches Token::Character { data } ==> final(self).mode == InsertionMode::InBody
                && final(self).open_elements@ == old(self).open_elements@ && character_effect(
                *old(self),
                data,
                *final(self),
            ) && r.0 is None,
            t matches Token::Comment { data } ==> final(self).mode == InsertionMode::InBody
                && final(self).open_elements@ == old(self).open_elements@
                && final(self).doc.nodes@.len() == old(self).doc.nodes@.len() + 1
                && final(self).doc.nodes@[old(self).doc.nodes@.len() as int].data == (
            NodeData::Comment { data }) && final(self).doc.nodes@[old(self).doc.nodes@.len() as int].parent == Some(spec_insertion_parent(*old(self)) as usize)
                && r.0 is None,
    {
        match t {
            Token::Character { data } => {
                if data == '\0' {
                    self.err("unexpected-null-character");
                } else {
                    self.insert_text(data);
                }
                (None, false)
            },
            Token::Comment { data } => {
                let p = self.insertion_parent();
                self.insert_comment_at(p, data);
                (None, false)
            },
            Token::Doctype { .. } => {
                self.err("unexpected-doctype");
                (None, false)
            },
            Token::StartTag { name, attributes, self_closing } => {
                if str_eq(name.as_str(), "html") || str_eq(name.as_str(), "head") || str_eq(
                    name.as_str(),
                    "body",
                ) {
                    self.err("unexpected-start-tag");
                    (None, false)
                } else if is_rawtext_tag(name.as_str()) {
                    self.original_mode = InsertionMode::InBody;
                    self.insert_element(name, attributes, true);
                    self.mode = InsertionMode::Text;
                    (None, true)
                } else if is_void_tag(name.as_str()) {
                    self.insert_element(name, attributes, false);
                    (None, false)
                } else {
                    if self_closing {
                        self.err("non-void-html-element-start-tag-with-trailing-solidus");
                    }
                    self.insert_element(name, attributes, true);
                    (None, false)
                }
            },
            Token::EndTag { name } => {
                if str_eq(name.as_str(), "body") {
                    self.mode = InsertionMode::AfterBody;
                    (None, false)
                } else if str_eq(name.as_str(), "html") {
                    self.mode = InsertionMode::AfterBody;
                    (Some(Token::EndTag { name }), false)
                } else if str_eq(name.as_str(), "br") {
                    self.err("unexpected-end-tag");
                    self.insert_element("br".to_owned(), Vec::new(), false);
                    (None, false)
                } else {
                    self.pop_matching(name.as_str());
                    (None, false)
                }
            },
            Token::EndOfFile => {
                self.done = true;
                (None, false)
            },
        }
    }

    /// Raw text: every character joins the current node's text.
    fn mode_text(&mut self, t: Token) -> (r: (Option<Token>, bool))
        requires
            old(self).wf(),
            old(self).mode == InsertionMode::Text,
        ensures
            final(self).wf(),
            final(self).mode != InsertionMode::Initial,
            final(self).doc.quirks_mode == old(self).doc.quirks_mode,
    {
        match t {
            Token::Character { data } => {
                self.insert_text(data);
                (None, false)
            },
            Token::EndOfFile => {
                self.err("eof-in-element-that-can-contain-only-text");
                self.pop_current();
                self.mode = self.original_mode;
                (Some(Token::EndOfFile), false)
            },
            Token::EndTag { name: _ } => {
                self.pop_current();
                self.mode = self.original_mode;
                (None, false)
            },
            _ => {
                self.err("unexpected-token-in-text");
                (None, false)
            },
        }
    }

    /// After the body.
    fn mode_after_body(&mut self, t: Token) -> (r: (Option<Token>, bool))
        requires
            old(self).wf(),
            old(self).mode == InsertionMode::AfterBody,
        ensures
            final(self).wf(),
            final(self).mode != InsertionMode::Initial,
            final(self).doc.quirks_mode == old(self).doc.quirks_mode,
    {
        match t {
            Token::Character { data } => {
                if crate::text::is_space(data) {
                    self.insert_text(data);
                    (None, false)
                } else {
                    self.err("unexpected-content-after-body");
                    self.mode = InsertionMode::InBody;
                    (Some(Token::Character { data }), false)
                }
            },
            Token::Comment { data } => {
                let n = self.open_elements.len();
                let p = if n > 0 {
                    self.open_elements[0]
                } else {
                    0
                };
                proof {
                    assert(old(self).wf());
                }
                self.insert_comment_at(p, data);
                (None, false)
            },
            Token::Doctype { .. } => {
                self.err("unexpected-doctype");
                (None, false)
            },
            Token::EndTag { name } => {
                if str_eq(name.as_str(), "html") {
                    self.mode = InsertionMode::AfterAfterBody;
                    (None, false)
                } else {
                    self.err("unexpected-content-after-body");
                    self.mode = InsertionMode::InBody;
                    (Some(Token::EndTag { name }), false)
                }
            },
            Token::EndOfFile => {
                self.done = true;
                (None, false)
            },
            other => {
                self.err("unexpected-content-after-body");
                self.mode = InsertionMode::InBody;
                (Some(other), false)
            },
        }
    }

    /// The very end of the document.
    fn mode_after_after_body(&mut self, t: Token) -> (r: (Option<Token>, bool))
        requires
            old(self).wf(),
            old(self).mode == InsertionMode::AfterAfterBody,
        ensures
            final(self).wf(),
            final(self).mode != InsertionMode::Initial,
            final(self).doc.quirks_mode == old(self).doc.quirks_mode,
    {
        match t {
            Token::Comment { data } => {
                self.insert_comment_at(0, data);
                (None, false)
            },
            Token::Doctype { .. } => {
                self.err("unexpected-doctype");
                (None, false)
            },
            Token::Character { data } => {
                if crate::text::is_space(data) {
                    self.insert_text(data);
                    (None, false)
                } else {
                    self.err("unexpected-content-after-body");
                    self.mode = InsertionMode::InBody;
                    (Some(Token::Character { data }), false)
                }
            },
            Token::EndOfFile => {
                self.done = true;
                (None, false)
            },
            other => {
                self.err("unexpected-content-after-body");
                self.mode = InsertionMode::InBody;
                (Some(other), false)
            },
        }
    }

    /// Dispatches one token under the current insertion mode. The result
    /// carries the token to reprocess, if any, and whether the tokenizer
    /// must switch to raw text.
    fn dispatch(&mut self, t: Token) -> (r: (Option<Token>, bool))
        requires
            old(self).wf(),
        ensures
            final(self).wf(),
            token_effect(*old(self), t, *final(self)),
            token_effect_applies(*old(self), t) ==> r.0 is None,
            final(self).mode == InsertionMode::Initial ==> r.0 is None,
            old(self).mode != InsertionMode::Initial ==> final(self).mode
                != InsertionMode::Initial && final(self).doc.quirks_mode == old(self).doc.quirks_mode,
    {
        match self.mode {
            InsertionMode::Initial => self.mode_initial(t),
            InsertionMode::BeforeHtml => self.mode_before_html(t),
            InsertionMode::BeforeHead => self.mode_before_head(t),
            InsertionMode::InHead => self.mode_in_head(t),
            InsertionMode::AfterHead => self.mode_after_head(t),
            InsertionMode::InBody => self.mode_in_body(t),
            InsertionMode::Text => self.mode_text(t),
            InsertionMode::AfterBody => self.mode_after_body(t),
            InsertionMode::AfterAfterBody => self.mode_after_after_body(t),
        }
    }

    /// Processes exactly one token: dispatches it, reprocessing under new
    /// modes as the grammar asks, through a bounded chain. Hands back
    /// whether the tokenizer must read raw text next. The quirks mode is
    /// decided at most once: past the initial mode it never changes, so it
    /// never regresses to no-quirks.
    pub fn process_token(&mut self, tok: Token) -> (switch_raw: bool)
        requires
            old(self).wf(),
        ensures
            final(self).wf(),
            token_effect(*old(self), tok, *final(self)),
            old(self).mode != InsertionMode::Initial ==> final(self).mode
                != InsertionMode::Initial && final(self).doc.quirks_mode == old(self).doc.quirks_mode,
    {
        let ghost g_tok = tok;
        let mut pending_tok: Option<Token> = Some(tok);
        let mut raw = false;
        let mut fuel: usize = 8;
        let ghost mut iterated: bool = false;
        while fuel > 0
            invariant
                self.wf(),
                !iterated ==> *self == *old(self) && pending_tok == Some(g_tok) && fuel == 8,
                iterated && token_effect_applies(*old(self), g_tok) ==> token_effect(
                    *old(self),
                    g_tok,
                    *self,
                ) && pending_tok is None,
                fuel < 8 ==> iterated,
                old(self).mode != InsertionMode::Initial ==> self.mode != InsertionMode::Initial
                    && self.doc.quirks_mode == old(self).doc.quirks_mode,
                iterated && self.mode == InsertionMode::Initial ==> pending_tok is None,
                iterated && old(self).mode == InsertionMode::Initial && !(g_tok matches
                Token::Doctype { .. }) ==> ((self.mode == InsertionMode::Initial
                    && self.doc.quirks_mode == old(self).doc.quirks_mode) || (self.mode
                    != InsertionMode::Initial && self.doc.quirks_mode == QuirksMode::Quirks)),
                iterated && old(self).mode == InsertionMode::Initial && (g_tok matches
                Token::EndOfFile) ==> self.mode != InsertionMode::Initial,
            ensures
                self.wf(),
                token_effect_applies(*old(self), g_tok) ==> token_effect(*old(self), g_tok, *self),
                old(self).mode != InsertionMode::Initial ==> self.mode != InsertionMode::Initial
                    && self.doc.quirks_mode == old(self).doc.quirks_mode,
                old(self).mode == InsertionMode::Initial && !(g_tok matches Token::Doctype { .. })
                    ==> ((self.mode == InsertionMode::Initial && self.doc.quirks_mode == old(self).doc.quirks_mode) || (self.mode != InsertionMode::Initial && self.doc.quirks_mode
                    == QuirksMode::Quirks)),
                old(self).mode == InsertionMode::Initial && (g_tok matches Token::EndOfFile)
                    ==> self.mode != InsertionMode::Initial,
            decreases fuel,
        {
            let t = match pending_tok {
                Some(t) => t,
                None => {
                    break;
                },
            };
            let r = self.dispatch(t);
            proof {
                iterated = true;
            }
            if r.1 {
                raw = true;
            }
            pending_tok = r.0;
            fuel -= 1;
        }
        raw
    }
}

} // verus!
