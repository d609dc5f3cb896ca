//! The parser: drives the tokenizer and the tree builder to completion
//! over one decoded character stream.
//!
//! Parsing is pull-based and single-threaded: the builder demands one
//! token at a time, and the one feedback path is the raw-text switch the
//! builder sends back to the tokenizer. The whole run terminates: every
//! demanded token either advances the cursor, performs the one
//! end-of-input step, or drains the pending queue.

use crate::dom::Document;
use crate::tokenizer::Tokenizer;
use crate::tokens::{ParseError, Token};
use crate::treebuilder::TreeBuilder;
use vstd::prelude::*;

verus! {

/// A parser over one character stream and one document under
/// construction.
pub struct Html5Parser {
    pub tokenizer: Tokenizer,
    pub builder: TreeBuilder,
}

impl Html5Parser {
    /// Both halves are sound.
    pub open spec fn wf(&self) -> bool {
        self.tokenizer.wf() && self.builder.wf()
    }

    /// A parser at the start of the given markup, over an empty document.
    pub fn new(input: &str) -> (p: Html5Parser)
        ensures
            p.wf(),
            p.tokenizer.chars@ == input@,
            p.tokenizer.pos == 0,
            p.tokenizer.state == crate::tokenizer::State::Data,
            p.tokenizer.pending@.len() == 0,
            p.tokenizer.errors@.len() == 0,
            !p.tokenizer.eof_done,
            p.builder.mode == crate::treebuilder::InsertionMode::Initial,
            p.builder.open_elements@.len() == 0,
            p.builder.doc.nodes@.len() == 1,
            p.builder.doc.quirks_mode == crate::quirks::QuirksMode::NoQuirks,
            p.builder.errors@.len() == 0,
    {
        Html5Parser { tokenizer: Tokenizer::new(input), builder: TreeBuilder::new() }
    }

    /// Parses to completion: returns the populated document and the parse
    /// errors, one append-only list in stream order, each with the
    /// location at which it was noticed. Malformed markup is the normal
    /// case; it is recovered, never thrown.
    pub fn parse(self) -> (r: (Document, Vec<ParseError>))
        requires
            self.wf(),
        ensures
            r.0.wf(),
    {
        let Html5Parser { mut tokenizer, mut builder } = self;
        let mut errors: Vec<ParseError> = Vec::new();
        let mut lexical_seen: usize = 0;
        let mut structural_seen: usize = 0;
        loop
            invariant
                tokenizer.wf(),
                builder.wf(),
            decreases tokenizer.chars@.len() - tokenizer.pos, tokenizer.eof_measure(),
                tokenizer.pending@.len(),
        {
            let t = tokenizer.next_token();
            while lexical_seen < tokenizer.errors.len()
                decreases tokenizer.errors@.len() - lexical_seen,
            {
                let e = ParseError {
                    message: tokenizer.errors[lexical_seen].message.clone(),
                    location: tokenizer.errors[lexical_seen].location,
                };
                errors.push(e);
                lexical_seen += 1;
            }
            let is_eof = matches!(t, Token::EndOfFile);
            builder.location = tokenizer.pos;
            let raw = builder.process_token(t);
            while structural_seen < builder.errors.len()
                decreases builder.errors@.len() - structural_seen,
            {
                let e = ParseError {
                    message: builder.errors[structural_seen].message.clone(),
                    location: builder.errors[structural_seen].location,
                };
                errors.push(e);
                structural_seen += 1;
            }
            if raw {
                tokenizer.switch_to_rawtext();
            }
            if is_eof {
                break;
            }
        }
        (builder.doc, errors)
    }
}

} // verus!
