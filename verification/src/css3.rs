//! A small parser over CSS token streams.
//!
//! This sits beside the HTML engine as a far less complete grammar engine:
//! a scanner that turns characters into structural tokens, and a parser
//! that consumes functions and simple blocks from the resulting stream.

use crate::text::{is_alnum, is_space, push_char, spec_is_space};
use vstd::prelude::*;

verus! {

/// The kind of a CSS token. `Any` is a wildcard used only when consuming:
/// the scanner never produces it, nor `Eof`, which stands for the exhausted
/// stream.
#[derive(Clone, Copy, Debug, PartialEq, Eq, Structural)]
pub enum TokenKind {
    Ident,
    Function,
    LParen,
    RParen,
    LCurly,
    RCurly,
    LBracket,
    RBracket,
    Comma,
    Semicolon,
    Delim,
    Eof,
    Any,
}

/// One CSS token: its kind and the characters it covers.
pub struct Token {
    pub kind: TokenKind,
    pub value: String,
}

impl Token {
    /// The token's kind.
    pub fn kind(&self) -> (k: TokenKind)
        ensures
            k == self.kind,
    {
        self.kind
    }

    /// The characters the token covers.
    pub fn value(&self) -> (v: &String)
        ensures
            v@ == self.value@,
    {
        &self.value
    }

    /// Whether the token marks the end of the stream.
    pub fn is_eof(&self) -> (r: bool)
        ensures
            r == (self.kind == TokenKind::Eof),
    {
        self.kind == TokenKind::Eof
    }

    /// A token with the same kind and characters.
    pub fn duplicate(&self) -> (t: Token)
        ensures
            t.kind == self.kind,
            t.value@ == self.value@,
    {
        Token { kind: self.kind, value: self.value.clone() }
    }
}

/// A cursor over decoded characters, the scanner's input.
pub struct CharIterator {
    pub chars: Vec<char>,
    pub pos: usize,
}

impl CharIterator {
    /// A cursor at the start of the given characters.
    pub fn new(chars: Vec<char>) -> (ci: CharIterator)
        ensures
            ci.chars@ == chars@,
            ci.pos == 0,
    {
        CharIterator { chars, pos: 0 }
    }
}

/// A character that may stand in an identifier.
pub open spec fn spec_is_ident_char(c: char) -> bool {
    crate::text::spec_is_alnum(c) || c == '-' || c == '_'
}

/// Identifier-character test.
pub fn is_ident_char(c: char) -> (r: bool)
    ensures
        r == spec_is_ident_char(c),
{
    is_alnum(c) || c == '-' || c == '_'
}

/// The end of the identifier run that starts at `i`.
pub open spec fn spec_ident_end(chars: Seq<char>, i: int) -> int
    decreases chars.len() - i,
        when 0 <= i <= chars.len()
{
    if i >= chars.len() {
        i
    } else if spec_is_ident_char(chars[i]) {
        spec_ident_end(chars, i + 1)
    } else {
        i
    }
}

/// The identifier run ends inside the input, at or after its start.
pub proof fn lemma_ident_end_bounds(chars: Seq<char>, i: int)
    requires
        0 <= i <= chars.len(),
    ensures
        i <= spec_ident_end(chars, i) <= chars.len(),
    decreases chars.len() - i,
{
    if i < chars.len() && spec_is_ident_char(chars[i]) {
        lemma_ident_end_bounds(chars, i + 1);
    }
}

/// One scanned token, as the contracts see it: its kind and its
/// characters.
pub open spec fn token_view(t: Token) -> (TokenKind, Seq<char>) {
    (t.kind, t.value@)
}

/// A token list, as the contracts see it.
pub open spec fn tokens_view(tokens: Seq<Token>) -> Seq<(TokenKind, Seq<char>)> {
    Seq::new(tokens.len(), |k: int| token_view(tokens[k]))
}

/// The scan of the characters from `i` on: whitespace separates,
/// punctuation stands alone, an identifier run followed directly by an
/// opening parenthesis is a function token that swallows the parenthesis,
/// and anything else is a lone delimiter.
pub open spec fn spec_scan(chars: Seq<char>, i: int) -> Seq<(TokenKind, Seq<char>)>
    decreases chars.len() - i,
        when 0 <= i <= chars.len()
        via spec_scan_decreases
{
    if i >= chars.len() {
        Seq::empty()
    } else {
        let c = chars[i];
        if spec_is_space(c) {
            spec_scan(chars, i + 1)
        } else if c == '(' {
            seq![(TokenKind::LParen, Seq::<char>::empty())] + spec_scan(chars, i + 1)
        } else if c == ')' {
            seq![(TokenKind::RParen, Seq::<char>::empty())] + spec_scan(chars, i + 1)
        } else if c == '{' {
            seq![(TokenKind::LCurly, Seq::<char>::empty())] + spec_scan(chars, i + 1)
        } else if c == '}' {
            seq![(TokenKind::RCurly, Seq::<char>::empty())] + spec_scan(chars, i + 1)
        } else if c == '[' {
            seq![(TokenKind::LBracket, Seq::<char>::empty())] + spec_scan(chars, i + 1)
        } else if c == ']' {
            seq![(TokenKind::RBracket, Seq::<char>::empty())] + spec_scan(chars, i + 1)
        } else if c == ',' {
            seq![(TokenKind::Comma, Seq::<char>::empty())] + spec_scan(chars, i + 1)
        } else if c == ';' {
            seq![(TokenKind::Semicolon, Seq::<char>::empty())] + spec_scan(chars, i + 1)
        } else if spec_is_ident_char(c) {
            let e = spec_ident_end(chars, i);
            let value = chars.subrange(i, e);
            if e < chars.len() && chars[e] == '(' {
                seq![(TokenKind::Function, value)] + spec_scan(chars, e + 1)
            } else {
                seq![(TokenKind::Ident, value)] + spec_scan(chars, e)
            }
        } else {
            seq![(TokenKind::Delim, seq![c])] + spec_scan(chars, i + 1)
        }
    }
}

/// Concatenation of token views associates.
proof fn lemma_view_assoc(
    a: Seq<(TokenKind, Seq<char>)>,
    b: Seq<(TokenKind, Seq<char>)>,
    c: Seq<(TokenKind, Seq<char>)>,
)
    ensures
        (a + b) + c == a + (b + c),
{
    assert((a + b) + c =~= a + (b + c));
}

/// One scanner step: the spec scan at `p0` opens with exactly the token
/// just pushed, so the running equation moves from `p0` to `q`.
proof fn scan_step(
    tv0: Seq<(TokenKind, Seq<char>)>,
    toks: Seq<Token>,
    cs: Seq<char>,
    p0: int,
    start: int,
    q: int,
    tok: (TokenKind, Seq<char>),
)
    requires
        tv0 + spec_scan(cs, p0) == spec_scan(cs, start),
        spec_scan(cs, p0) == seq![tok] + spec_scan(cs, q),
        toks.len() == tv0.len() + 1,
        forall|k: int| 0 <= k < tv0.len() ==> token_view(#[trigger] toks[k]) == tv0[k],
        token_view(toks[tv0.len() as int]) == tok,
    ensures
        tokens_view(toks) + spec_scan(cs, q) == spec_scan(cs, start),
{
    assert(tokens_view(toks) =~= tv0 + seq![tok]);
    lemma_view_assoc(tv0, seq![tok], spec_scan(cs, q));
}

#[via_fn]
proof fn spec_scan_decreases(chars: Seq<char>, i: int) {
    if 0 <= i < chars.len() && spec_is_ident_char(chars[i]) {
        lemma_ident_end_bounds(chars, i + 1);
    }
}

/// No scanned token is an end-of-stream or wildcard marker.
pub open spec fn tokens_wf(tokens: Seq<Token>) -> bool {
    forall|i: int|
        0 <= i < tokens.len() ==> tokens[i].kind != TokenKind::Eof && tokens[i].kind
            != TokenKind::Any
}

/// The token stream the parser reads: scanned tokens and a cursor.
pub struct Tokenizer {
    pub tokens: Vec<Token>,
    pub pos: usize,
}

impl Tokenizer {
    /// The cursor stays inside the stream and the stream holds no marker
    /// tokens.
    pub open spec fn wf(&self) -> bool {
        self.pos <= self.tokens@.len() && tokens_wf(self.tokens@)
    }

    /// Scans the cursor's remaining characters into tokens and leaves the
    /// cursor exhausted. The scanned tokens are exactly the spec-level
    /// scan of those characters.
    pub fn new(ci: &mut CharIterator) -> (t: Tokenizer)
        ensures
            t.wf(),
            t.pos == 0,
            final(ci).chars@ == old(ci).chars@,
            final(ci).pos == final(ci).chars@.len(),
            old(ci).pos <= old(ci).chars@.len() ==> tokens_view(t.tokens@) == spec_scan(
                old(ci).chars@,
                old(ci).pos as int,
            ),
    {
        let n = ci.chars.len();
        let mut tokens: Vec<Token> = Vec::new();
        if ci.pos > n {
            ci.pos = n;
        }
        let ghost start = ci.pos as int;
        while ci.pos < n
            invariant
                ci.pos <= n,
                n == ci.chars@.len(),
                ci.chars@ == old(ci).chars@,
                tokens_wf(tokens@),
                0 <= start <= n,
                tokens_view(tokens@) + spec_scan(ci.chars@, ci.pos as int) == spec_scan(
                    ci.chars@,
                    start,
                ),
            decreases n - ci.pos,
        {
            let ghost p0 = ci.pos as int;
            let ghost tv0 = tokens_view(tokens@);
            let ghost cs = ci.chars@;
            let c = ci.chars[ci.pos];
            if is_space(c) {
                ci.pos = ci.pos + 1;
                proof {
                    assert(spec_scan(cs, p0) == spec_scan(cs, p0 + 1));
                }
            } else if c == '(' {
                tokens.push(Token { kind: TokenKind::LParen, value: String::new() });
                ci.pos = ci.pos + 1;
                proof {
                    scan_step(tv0, tokens@, cs, p0, start, p0 + 1, (TokenKind::LParen, Seq::empty()));
                }
            } else if c == ')' {
                tokens.push(Token { kind: TokenKind::RParen, value: String::new() });
                ci.pos = ci.pos + 1;
                proof {
                    scan_step(tv0, tokens@, cs, p0, start, p0 + 1, (TokenKind::RParen, Seq::empty()));
                }
            } else if c == '{' {
                tokens.push(Token { kind: TokenKind::LCurly, value: String::new() });
                ci.pos = ci.pos + 1;
                proof {
                    scan_step(tv0, tokens@, cs, p0, start, p0 + 1, (TokenKind::LCurly, Seq::empty()));
                }
            } else if c == '}' {
                tokens.push(Token { kind: TokenKind::RCurly, value: String::new() });
                ci.pos = ci.pos + 1;
                proof {
                    scan_step(tv0, tokens@, cs, p0, start, p0 + 1, (TokenKind::RCurly, Seq::empty()));
                }
            } else if c == '[' {
                tokens.push(Token { kind: TokenKind::LBracket, value: String::new() });
                ci.pos = ci.pos + 1;
                proof {
                    scan_step(tv0, tokens@, cs, p0, start, p0 + 1, (TokenKind::LBracket, Seq::empty()));
                }
            } else if c == ']' {
                tokens.push(Token { kind: TokenKind::RBracket, value: String::new() });
                ci.pos = ci.pos + 1;
                proof {
                    scan_step(tv0, tokens@, cs, p0, start, p0 + 1, (TokenKind::RBracket, Seq::empty()));
                }
            } else if c == ',' {
                tokens.push(Token { kind: TokenKind::Comma, value: String::new() });
                ci.pos = ci.pos + 1;
                proof {
                    scan_step(tv0, tokens@, cs, p0, start, p0 + 1, (TokenKind::Comma, Seq::empty()));
                }
            } else if c == ';' {
                tokens.push(Token { kind: TokenKind::Semicolon, value: String::new() });
                ci.pos = ci.pos + 1;
                proof {
                    scan_step(tv0, tokens@, cs, p0, start, p0 + 1, (TokenKind::Semicolon, Seq::empty()));
                }
            } else if is_ident_char(c) {
                let mut value = String::new();
                push_char(&mut value, c);
                ci.pos = ci.pos + 1;
                proof {
                    assert(value@ =~= cs.subrange(p0, ci.pos as int));
                    assert(spec_ident_end(cs, p0) == spec_ident_end(cs, p0 + 1));
                }
                while ci.pos < n && is_ident_char(ci.chars[ci.pos])
                    invariant
                        0 <= p0 < ci.pos,
                        ci.pos <= n,
                        n == ci.chars@.len(),
                        ci.chars@ == cs,
                        value@ == cs.subrange(p0, ci.pos as int),
                        spec_ident_end(cs, p0) == spec_ident_end(cs, ci.pos as int),
                    decreases n - ci.pos,
                {
                    push_char(&mut value, ci.chars[ci.pos]);
                    ci.pos = ci.pos + 1;
                    proof {
                        assert(value@ =~= cs.subrange(p0, ci.pos as int));
                    }
                }
                proof {
                    assert(spec_ident_end(cs, ci.pos as int) == ci.pos as int);
                    assert(spec_ident_end(cs, p0) == ci.pos as int);
                }
                if ci.pos < n && ci.chars[ci.pos] == '(' {
                    let ghost e = ci.pos as int;
                    ci.pos = ci.pos + 1;
                    tokens.push(Token { kind: TokenKind::Function, value });
                    proof {
                        scan_step(
                            tv0,
                            tokens@,
                            cs,
                            p0,
                            start,
                            e + 1,
                            (TokenKind::Function, cs.subrange(p0, e)),
                        );
                    }
                } else {
                    let ghost e = ci.pos as int;
                    tokens.push(Token { kind: TokenKind::Ident, value });
                    proof {
                        scan_step(
                            tv0,
                            tokens@,
                            cs,
                            p0,
                            start,
                            e,
                            (TokenKind::Ident, cs.subrange(p0, e)),
                        );
                    }
                }
            } else {
                let mut value = String::new();
                push_char(&mut value, c);
                tokens.push(Token { kind: TokenKind::Delim, value });
                ci.pos = ci.pos + 1;
                proof {
                    assert(tokens@.last().value@ =~= seq![c]);
                    scan_step(tv0, tokens@, cs, p0, start, p0 + 1, (TokenKind::Delim, seq![c]));
                }
            }
        }
        proof {
            assert(spec_scan(ci.chars@, ci.pos as int) =~= Seq::<(TokenKind, Seq<char>)>::empty());
            assert(tokens_view(tokens@) =~= tokens_view(tokens@) + spec_scan(
                ci.chars@,
                ci.pos as int,
            ));
        }
        Tokenizer { tokens, pos: 0 }
    }

    /// The token `offset` places past the cursor; an `Eof` token when the
    /// stream has no such token.
    pub fn lookahead(&self, offset: usize) -> (t: Token)
        requires
            self.wf(),
        ensures
            self.pos + offset < self.tokens@.len() ==> {
                &&& t.kind == self.tokens@[self.pos + offset].kind
                &&& t.value@ == self.tokens@[self.pos + offset].value@
            },
            self.pos + offset >= self.tokens@.len() ==> t.kind == TokenKind::Eof,
    {
        if self.pos < self.tokens.len() && offset < self.tokens.len() - self.pos {
            self.tokens[self.pos + offset].duplicate()
        } else {
            Token { kind: TokenKind::Eof, value: String::new() }
        }
    }

    /// Takes the token under the cursor and advances; at the end of the
    /// stream, stays put and hands back an `Eof` token.
    pub fn consume(&mut self) -> (t: Token)
        requires
            old(self).wf(),
        ensures
            final(self).wf(),
            final(self).tokens@ == old(self).tokens@,
            old(self).pos < old(self).tokens@.len() ==> {
                &&& t.kind == old(self).tokens@[old(self).pos as int].kind
                &&& t.value@ == old(self).tokens@[old(self).pos as int].value@
                &&& final(self).pos == old(self).pos + 1
            },
            old(self).pos >= old(self).tokens@.len() ==> {
                &&& t.kind == TokenKind::Eof
                &&& final(self).pos == old(self).pos
            },
    {
        if self.pos < self.tokens.len() {
            let t = self.tokens[self.pos].duplicate();
            self.pos = self.pos + 1;
            t
        } else {
            Token { kind: TokenKind::Eof, value: String::new() }
        }
    }
}

/// A token kind that opens a simple block.
pub open spec fn opens_block(k: TokenKind) -> bool {
    k == TokenKind::LParen || k == TokenKind::LCurly || k == TokenKind::LBracket
}

/// The position after scanning forward from `i` to just past the first
/// token of kind `k`; the end of the stream when no such token follows.
pub open spec fn spec_scan_past(tokens: Seq<Token>, i: int, k: TokenKind) -> int
    decreases tokens.len() - i,
{
    if i < 0 || i >= tokens.len() {
        tokens.len() as int
    } else if tokens[i].kind == k {
        i + 1
    } else {
        spec_scan_past(tokens, i + 1, k)
    }
}

/// The position of the first token of kind `k` at or after `i`; the end of
/// the stream when no such token follows.
pub open spec fn spec_scan_to(tokens: Seq<Token>, i: int, k: TokenKind) -> int
    decreases tokens.len() - i,
{
    if i < 0 || i >= tokens.len() {
        tokens.len() as int
    } else if tokens[i].kind == k {
        i
    } else {
        spec_scan_to(tokens, i + 1, k)
    }
}

/// Parser over a scanned token stream; its output is consumed as at-rules,
/// qualified rules and declarations by the style system.
pub struct CSS3Parser {
    pub tokenizer: Tokenizer,
}

impl CSS3Parser {
    /// A parser reading the given stream.
    pub fn new(tokenizer: Tokenizer) -> (p: CSS3Parser)
        ensures
            p.tokenizer == tokenizer,
    {
        CSS3Parser { tokenizer }
    }

    /// A parser over everything the character cursor still holds: the
    /// same parser that composing the two constructors yields.
    pub fn from_input_stream(ci: &mut CharIterator) -> (p: CSS3Parser)
        ensures
            p.tokenizer.wf(),
            p.tokenizer.pos == 0,
            final(ci).chars@ == old(ci).chars@,
            final(ci).pos == final(ci).chars@.len(),
            old(ci).pos <= old(ci).chars@.len() ==> tokens_view(p.tokenizer.tokens@) == spec_scan(
                old(ci).chars@,
                old(ci).pos as int,
            ),
    {
        CSS3Parser::new(Tokenizer::new(ci))
    }

    /// The token under the cursor, without consuming it.
    pub fn current_token(&self) -> (t: Token)
        requires
            self.tokenizer.wf(),
        ensures
            self.tokenizer.pos < self.tokenizer.tokens@.len() ==> {
                &&& t.kind == self.tokenizer.tokens@[self.tokenizer.pos as int].kind
                &&& t.value@ == self.tokenizer.tokens@[self.tokenizer.pos as int].value@
            },
            self.tokenizer.pos >= self.tokenizer.tokens@.len() ==> t.kind == TokenKind::Eof,
    {
        self.tokenizer.lookahead(0)
    }

    /// The token one place past the cursor, without consuming anything.
    pub fn next_token(&self) -> (t: Token)
        requires
            self.tokenizer.wf(),
        ensures
            self.tokenizer.pos + 1 < self.tokenizer.tokens@.len() ==> {
                &&& t.kind == self.tokenizer.tokens@[self.tokenizer.pos + 1].kind
                &&& t.value@ == self.tokenizer.tokens@[self.tokenizer.pos + 1].value@
            },
            self.tokenizer.pos + 1 >= self.tokenizer.tokens@.len() ==> t.kind == TokenKind::Eof,
    {
        self.tokenizer.lookahead(1)
    }

    /// Takes the token under the cursor, which must be of the asked kind
    /// unless the wildcard is asked for.
    pub fn consume_token(&mut self, kind: TokenKind) -> (t: Token)
        requires
            old(self).tokenizer.wf(),
            kind != TokenKind::Any ==> (old(self).tokenizer.pos < old(self).tokenizer.tokens@.len()
                && old(self).tokenizer.tokens@[old(self).tokenizer.pos as int].kind == kind) || (
            kind == TokenKind::Eof && old(self).tokenizer.pos >= old(
                self,
            ).tokenizer.tokens@.len()),
        ensures
            final(self).tokenizer.wf(),
            final(self).tokenizer.tokens@ == old(self).tokenizer.tokens@,
            old(self).tokenizer.pos < old(self).tokenizer.tokens@.len() ==> {
                &&& t.kind == old(self).tokenizer.tokens@[old(self).tokenizer.pos as int].kind
                &&& t.value@ == old(self).tokenizer.tokens@[old(self).tokenizer.pos as int].value@
                &&& final(self).tokenizer.pos == old(self).tokenizer.pos + 1
            },
            old(self).tokenizer.pos >= old(self).tokenizer.tokens@.len() ==> {
                &&& t.kind == TokenKind::Eof
                &&& final(self).tokenizer.pos == old(self).tokenizer.pos
            },
    {
        self.tokenizer.consume()
    }

    /// Consumes a component value. Higher-level objects pull their values
    /// through the block and function consumers; on its own this leaves
    /// the stream exactly in place.
    pub fn consume_component_value(&mut self)
        ensures
            *final(self) == *old(self),
    {
    }

    /// Consumes a function: the function token itself, then everything up
    /// to and including the stopping token, or the rest of the stream.
    pub fn consume_function(&mut self)
        requires
            old(self).tokenizer.wf(),
            old(self).tokenizer.pos < old(self).tokenizer.tokens@.len(),
            old(self).tokenizer.tokens@[old(self).tokenizer.pos as int].kind
                == TokenKind::Function,
        ensures
            final(self).tokenizer.wf(),
            final(self).tokenizer.tokens@ == old(self).tokenizer.tokens@,
            final(self).tokenizer.pos == spec_scan_past(
                old(self).tokenizer.tokens@,
                old(self).tokenizer.pos + 1,
                TokenKind::LParen,
            ),
    {
        let _name_token = self.consume_token(TokenKind::Function);
        let ghost toks = self.tokenizer.tokens@;
        let ghost target = spec_scan_past(toks, old(self).tokenizer.pos + 1, TokenKind::LParen);
        loop
            invariant_except_break
                target == spec_scan_past(toks, self.tokenizer.pos as int, TokenKind::LParen),
            invariant
                self.tokenizer.wf(),
                self.tokenizer.tokens@ == toks,
                old(self).tokenizer.pos + 1 <= self.tokenizer.pos <= toks.len(),
            ensures
                self.tokenizer.wf(),
                self.tokenizer.tokens@ == toks,
                self.tokenizer.pos == target,
            decreases toks.len() - self.tokenizer.pos,
        {
            let token = self.tokenizer.consume();
            if token.kind() == TokenKind::LParen || token.is_eof() {
                break;
            }
        }
    }

    /// Consumes a simple block: the opening token, then everything before
    /// the next token of the same kind, or the rest of the stream. The
    /// stopping token itself is left in place.
    pub fn consume_simple_block(&mut self)
        requires
            old(self).tokenizer.wf(),
            old(self).tokenizer.pos < old(self).tokenizer.tokens@.len(),
            opens_block(old(self).tokenizer.tokens@[old(self).tokenizer.pos as int].kind),
        ensures
            final(self).tokenizer.wf(),
            final(self).tokenizer.tokens@ == old(self).tokenizer.tokens@,
            final(self).tokenizer.pos == spec_scan_to(
                old(self).tokenizer.tokens@,
                old(self).tokenizer.pos + 1,
                old(self).tokenizer.tokens@[old(self).tokenizer.pos as int].kind,
            ),
    {
        let start = self.current_token().kind();
        self.consume_token(start);
        let ghost toks = self.tokenizer.tokens@;
        let ghost target = spec_scan_to(toks, old(self).tokenizer.pos + 1, start);
        let mut value: Vec<Token> = Vec::new();
        loop
            invariant
                self.tokenizer.wf(),
                self.tokenizer.tokens@ == toks,
                old(self).tokenizer.pos + 1 <= self.tokenizer.pos <= toks.len(),
                target == spec_scan_to(toks, self.tokenizer.pos as int, start),
            ensures
                self.tokenizer.wf(),
                self.tokenizer.tokens@ == toks,
                self.tokenizer.pos == target,
            decreases toks.len() - self.tokenizer.pos,
        {
            if self.current_token().kind() == start || self.current_token().is_eof() {
                break;
            }
            value.push(self.consume_token(TokenKind::Any));
        }
    }
}

} // verus!
