//! The character-driven tokenizer: a state machine that walks the decoded
//! input one character at a time and hands back a stream of tokens ending
//! in `EndOfFile`.
//!
//! Each call of `next_token` first drains tokens already produced; only
//! with nothing pending does the machine consume characters. Character
//! references are resolved inline where the grammar allows them, with the
//! legacy no-semicolon rule of the entities module. The tree builder may
//! switch the machine into raw-text reading after a `<script>` or
//! `<style>` start tag; that is the one feedback path from tree
//! construction into tokenization.

use crate::entities::{named_ref_outcome, numeric_ref_char, RefOutcome};
use crate::text::{
    chars_eq_str, chars_of, copy_chars, is_alnum, is_letter, is_space, spec_to_ascii_lower,
    string_of, to_ascii_lower,
};
use crate::tokens::{Attribute, ParseError, Token};
use vstd::prelude::*;

verus! {

/// The lexical state, named as the grammar names its sections.
#[derive(Clone, Copy, Debug, PartialEq, Eq, Structural)]
pub enum State {
    Data,
    TagOpen,
    EndTagOpen,
    TagName,
    BeforeAttributeName,
    AttributeName,
    AfterAttributeName,
    BeforeAttributeValue,
    AttributeValueDouble,
    AttributeValueSingle,
    AttributeValueUnquoted,
    AfterAttributeValueQuoted,
    SelfClosingStartTag,
    BogusComment,
    CommentStart,
    CommentStartDash,
    Comment,
    CommentEndDash,
    CommentEnd,
    Doctype,
    BeforeDoctypeName,
    DoctypeName,
    AfterDoctypeName,
    BeforeDoctypePublicId,
    DoctypePublicIdDouble,
    DoctypePublicIdSingle,
    AfterDoctypePublicId,
    BeforeDoctypeSystemId,
    DoctypeSystemIdDouble,
    DoctypeSystemIdSingle,
    AfterDoctypeSystemId,
    BogusDoctype,
    RawText,
}

/// Case-insensitive match of `pat` (given lower-case) against the
/// characters starting at `at`.
pub open spec fn spec_peek_ci(chars: Seq<char>, at: int, pat: Seq<char>) -> bool {
    &&& at >= 0
    &&& at + pat.len() <= chars.len()
    &&& forall|i: int| 0 <= i < pat.len() ==> spec_to_ascii_lower(chars[at + i]) == pat[i]
}

/// The value of a digit character, in the asked base.
fn digit_value(c: char, hex: bool) -> (r: Option<u8>)
    ensures
        r is Some ==> r->0 <= 15,
{
    if '0' <= c && c <= '9' {
        Some((c as u8) - 48)
    } else if hex && 'a' <= c && c <= 'f' {
        Some((c as u8) - 87)
    } else if hex && 'A' <= c && c <= 'F' {
        Some((c as u8) - 55)
    } else {
        None
    }
}

/// The tokenizer: the decoded characters, a cursor, the lexical state, and
/// the token and error output built so far.
pub struct Tokenizer {
    pub chars: Vec<char>,
    pub pos: usize,
    pub state: State,
    pub pending: Vec<Token>,
    pub errors: Vec<ParseError>,
    pub eof_done: bool,
    pub tag_name: Vec<char>,
    pub is_end_tag: bool,
    pub self_closing: bool,
    pub attrs: Vec<Attribute>,
    pub attr_name: Vec<char>,
    pub attr_value: Vec<char>,
    pub comment: Vec<char>,
    pub dt_name: Vec<char>,
    pub dt_has_name: bool,
    pub dt_public: Vec<char>,
    pub dt_has_public: bool,
    pub dt_system: Vec<char>,
    pub dt_has_system: bool,
    pub dt_force_quirks: bool,
    pub last_start: Vec<char>,
}

impl Tokenizer {
    /// The cursor never leaves the input; the end-of-input step happens
    /// only at the end of the input; and no `EndOfFile` token is pending
    /// before that step has run.
    pub open spec fn wf(&self) -> bool {
        &&& self.pos <= self.chars@.len()
        &&& (self.eof_done ==> self.pos == self.chars@.len())
        &&& (!self.eof_done ==> forall|i: int|
            0 <= i < self.pending@.len() ==> !(#[trigger] self.pending@[i] is EndOfFile))
    }

    /// One unit of pending work for the end-of-input step.
    pub open spec fn eof_measure(&self) -> int {
        if self.eof_done {
            0
        } else {
            1
        }
    }

    /// A tokenizer at the start of the given markup, in the data state.
    pub fn new(input: &str) -> (t: Tokenizer)
        ensures
            t.wf(),
            t.chars@ == input@,
            t.pos == 0,
            t.state == State::Data,
            t.pending@.len() == 0,
            t.errors@.len() == 0,
            !t.eof_done,
    {
        Tokenizer {
            chars: chars_of(input),
            pos: 0,
            state: State::Data,
            pending: Vec::new(),
            errors: Vec::new(),
            eof_done: false,
            tag_name: Vec::new(),
            is_end_tag: false,
            self_closing: false,
            attrs: Vec::new(),
            attr_name: Vec::new(),
            attr_value: Vec::new(),
            comment: Vec::new(),
            dt_name: Vec::new(),
            dt_has_name: false,
            dt_public: Vec::new(),
            dt_has_public: false,
            dt_system: Vec::new(),
            dt_has_system: false,
            dt_force_quirks: false,
            last_start: Vec::new(),
        }
    }

    /// The tree builder's one instruction back into the tokenizer: read the
    /// coming characters as raw text until the matching end tag.
    pub fn switch_to_rawtext(&mut self)
        requires
            old(self).wf(),
        ensures
            final(self).wf(),
            final(self).state == State::RawText,
            final(self).chars@ == old(self).chars@,
            final(self).pos == old(self).pos,
            final(self).pending@ == old(self).pending@,
            final(self).eof_done == old(self).eof_done,
    {
        self.state = State::RawText;
    }

    /// Records a parse error at the cursor: one entry is appended, with
    /// the given message, and nothing already recorded moves.
    fn err(&mut self, msg: &str)
        requires
            old(self).wf(),
        ensures
            *final(self) == (Tokenizer { errors: final(self).errors, ..*old(self) }),
            final(self).wf(),
            final(self).errors@.len() == old(self).errors@.len() + 1,
            final(self).errors@.subrange(0, old(self).errors@.len() as int) == old(self).errors@,
            final(self).errors@.last().message@ == msg@,
            final(self).errors@.last().location == old(self).pos,
    {
        let location = self.pos;
        self.errors.push(ParseError { message: msg.to_owned(), location });
        proof {
            assert(self.errors@.subrange(0, old(self).errors@.len() as int) =~= old(self).errors@);
        }
    }

    /// Queues one produced token (never the end-of-file marker, which
    /// only the end-of-input step emits).
    fn emit(&mut self, t: Token)
        requires
            old(self).wf(),
            !(t is EndOfFile),
        ensures
            *final(self) == (Tokenizer { pending: final(self).pending, ..*old(self) }),
            final(self).pending@ == old(self).pending@.push(t),
            final(self).wf(),
    {
        self.pending.push(t);
        proof {
            if !self.eof_done {
                assert forall|i: int|
                    0 <= i < self.pending@.len() implies !(#[trigger] self.pending@[i]
                    is EndOfFile) by {
                    if i < old(self).pending@.len() {
                        assert(!(old(self).pending@[i] is EndOfFile));
                    }
                }
            }
        }
    }

    /// Case-insensitive peek without consuming.
    fn peek_ci(&self, at: usize, pat: &str) -> (r: bool)
        requires
            self.wf(),
        ensures
            r == spec_peek_ci(self.chars@, at as int, pat@),
    {
        let n = pat.unicode_len();
        let clen = self.chars.len();
        if at > clen || n > clen - at {
            return false;
        }
        let mut i: usize = 0;
        while i < n
            invariant
                i <= n,
                n == pat@.len(),
                clen == self.chars@.len(),
                at + n <= clen,
                forall|j: int|
                    0 <= j < i ==> spec_to_ascii_lower(self.chars@[at + j]) == pat@[j],
            decreases n - i,
        {
            if to_ascii_lower(self.chars[at + i]) != pat.get_char(i) {
                return false;
            }
            i += 1;
        }
        true
    }

    /// Whether the seven characters at the cursor spell the DOCTYPE
    /// keyword, case-insensitively.
    fn markup_decl_is_doctype(&self) -> (r: bool)
        requires
            self.wf(),
        ensures
            r ==> self.pos + 7 <= self.chars@.len(),
    {
        proof {
            reveal_strlit("doctype");
        }
        self.peek_ci(self.pos, "doctype")
    }

    /// Whether the six characters at `at` spell the PUBLIC (or SYSTEM)
    /// keyword, case-insensitively.
    fn peek_keyword(&self, at: usize, public: bool) -> (r: bool)
        requires
            self.wf(),
        ensures
            r ==> at + 6 <= self.chars@.len(),
    {
        proof {
            reveal_strlit("public");
            reveal_strlit("system");
        }
        if public {
            self.peek_ci(at, "public")
        } else {
            self.peek_ci(at, "system")
        }
    }

    /// Finishes the attribute under construction: appends it to the tag
    /// unless its name repeats an earlier one, which is a parse error.
    fn finish_attr(&mut self)
        requires
            old(self).wf(),
        ensures
            final(self).wf(),
            final(self).chars@ == old(self).chars@,
            final(self).pos == old(self).pos,
            final(self).state == old(self).state,
            final(self).pending@ == old(self).pending@,
            final(self).eof_done == old(self).eof_done,
    {
        if self.attr_name.len() == 0 {
            return;
        }
        let mut dup = false;
        let mut i: usize = 0;
        while i < self.attrs.len()
            invariant
                self.wf(),
                self.chars@ == old(self).chars@,
                self.pos == old(self).pos,
                self.state == old(self).state,
                self.pending@ == old(self).pending@,
                self.eof_done == old(self).eof_done,
            decreases self.attrs@.len() - i,
        {
            if chars_eq_str(&self.attr_name, self.attrs[i].name.as_str()) {
                dup = true;
            }
            i += 1;
        }
        if dup {
            self.err("duplicate-attribute");
        } else {
            let name = string_of(&self.attr_name);
            let value = string_of(&self.attr_value);
            self.attrs.push(Attribute { name, value });
        }
        self.attr_name = Vec::new();
        self.attr_value = Vec::new();
    }

    /// Emits the tag under construction and remembers the name of the last
    /// start tag for raw-text end-tag matching.
    fn emit_tag(&mut self)
        requires
            old(self).wf(),
        ensures
            final(self).wf(),
            final(self).chars@ == old(self).chars@,
            final(self).pos == old(self).pos,
            final(self).state == old(self).state,
            final(self).eof_done == old(self).eof_done,
    {
        if self.is_end_tag {
            if self.attrs.len() > 0 {
                self.err("end-tag-with-attributes");
            }
            if self.self_closing {
                self.err("end-tag-with-trailing-solidus");
            }
            let name = string_of(&self.tag_name);
            self.emit(Token::EndTag { name });
        } else {
            self.last_start = copy_chars(&self.tag_name);
            let name = string_of(&self.tag_name);
            let mut attributes: Vec<Attribute> = Vec::new();
            let mut i: usize = 0;
            while i < self.attrs.len()
                invariant
                    self.wf(),
                    self.chars@ == old(self).chars@,
                    self.pos == old(self).pos,
                    self.state == old(self).state,
                    self.eof_done == old(self).eof_done,
                decreases self.attrs@.len() - i,
            {
                attributes.push(self.attrs[i].duplicate());
                i += 1;
            }
            self.attrs = Vec::new();
            let self_closing = self.self_closing;
            self.emit(Token::StartTag { name, attributes, self_closing });
        }
    }

    /// Emits the DOCTYPE under construction.
    fn emit_doctype(&mut self, force: bool)
        requires
            old(self).wf(),
        ensures
            final(self).wf(),
            final(self).chars@ == old(self).chars@,
            final(self).pos == old(self).pos,
            final(self).state == old(self).state,
            final(self).eof_done == old(self).eof_done,
    {
        let name = if self.dt_has_name {
            Some(string_of(&self.dt_name))
        } else {
            None
        };
        let public_id = if self.dt_has_public {
            Some(string_of(&self.dt_public))
        } else {
            None
        };
        let system_id = if self.dt_has_system {
            Some(string_of(&self.dt_system))
        } else {
            None
        };
        let force_quirks = force || self.dt_force_quirks;
        self.emit(Token::Doctype { name, public_id, system_id, force_quirks });
    }

    /// Resolves a character reference just after its `&` has been
    /// consumed: hands back the characters to emit in its place, consuming
    /// what belongs to the reference and recording its errors.
    fn char_ref_chars(&mut self, in_attribute: bool) -> (out: Vec<char>)
        requires
            old(self).wf(),
        ensures
            final(self).wf(),
            final(self).chars@ == old(self).chars@,
            old(self).pos <= final(self).pos,
            final(self).state == old(self).state,
            final(self).pending@ == old(self).pending@,
            final(self).eof_done == old(self).eof_done,
    {
        let n = self.chars.len();
        let mut out: Vec<char> = Vec::new();
        if self.pos < n && self.chars[self.pos] == '#' {
            // Numeric reference.
            self.pos = self.pos + 1;
            let mut hex = false;
            if self.pos < n && (self.chars[self.pos] == 'x' || self.chars[self.pos] == 'X') {
                hex = true;
                self.pos = self.pos + 1;
            }
            let mut value: u32 = 0;
            let mut any = false;
            while self.pos < n && digit_value(self.chars[self.pos], hex).is_some()
                invariant
                    self.wf(),
                    n == self.chars@.len(),
                    self.chars@ == old(self).chars@,
                    self.state == old(self).state,
                    self.pending@ == old(self).pending@,
                    self.eof_done == old(self).eof_done,
                    old(self).pos <= self.pos,
                    value <= 0x110000,
                decreases n - self.pos,
            {
                let d = match digit_value(self.chars[self.pos], hex) {
                    Some(d) => d,
                    None => 0,
                };
                if value <= 0x10ffff {
                    let grown: u32 = if hex {
                        value * 16 + (d as u32)
                    } else {
                        value * 10 + (d as u32)
                    };
                    value = if grown > 0x10ffff {
                        0x110000
                    } else {
                        grown
                    };
                }
                any = true;
                self.pos = self.pos + 1;
            }
            if !any {
                self.err("absence-of-digits-in-numeric-character-reference");
                out.push('&');
                out.push('#');
                if hex {
                    out.push('x');
                }
                return out;
            }
            if self.pos < n && self.chars[self.pos] == ';' {
                self.pos = self.pos + 1;
            } else {
                self.err("missing-semicolon-after-character-reference");
            }
            let (c, bad) = numeric_ref_char(value);
            if bad {
                self.err("invalid-numeric-character-reference");
            }
            out.push(c);
            return out;
        }
        // Named reference: collect the alphanumeric run.
        let mut name: Vec<char> = Vec::new();
        while self.pos < n && is_alnum(self.chars[self.pos])
            invariant
                self.wf(),
                n == self.chars@.len(),
                self.chars@ == old(self).chars@,
                self.state == old(self).state,
                self.pending@ == old(self).pending@,
                self.eof_done == old(self).eof_done,
                old(self).pos <= self.pos,
            decreases n - self.pos,
        {
            name.push(self.chars[self.pos]);
            self.pos = self.pos + 1;
        }
        if name.len() == 0 {
            out.push('&');
            return out;
        }
        let terminated = self.pos < n && self.chars[self.pos] == ';';
        let next_blocks = !terminated && self.pos < n && (is_alnum(self.chars[self.pos])
            || self.chars[self.pos] == '=');
        let name_string = string_of(&name);
        match named_ref_outcome(name_string.as_str(), terminated, in_attribute, next_blocks) {
            RefOutcome::Resolved { ch, missing_semicolon } => {
                if terminated {
                    self.pos = self.pos + 1;
                }
                if missing_semicolon {
                    self.err("missing-semicolon-after-character-reference");
                }
                out.push(ch);
            },
            RefOutcome::NotResolved => {
                out.push('&');
                let mut i: usize = 0;
                while i < name.len()
                    invariant
                        self.wf(),
                        self.chars@ == old(self).chars@,
                        self.state == old(self).state,
                        self.pending@ == old(self).pending@,
                        self.eof_done == old(self).eof_done,
                        old(self).pos <= self.pos,
                    decreases name@.len() - i,
                {
                    out.push(name[i]);
                    i += 1;
                }
                if terminated {
                    self.pos = self.pos + 1;
                    self.err("unknown-named-character-reference");
                    out.push(';');
                }
            },
        }
        out
    }

    /// One data-state character.
    fn step_data(&mut self, c: char)
        requires
            old(self).wf(),
        ensures
            final(self).wf(),
            final(self).chars@ == old(self).chars@,
            old(self).pos <= final(self).pos,
            final(self).eof_done == old(self).eof_done,
    {
        if c == '&' {
            let out = self.char_ref_chars(false);
            let mut i: usize = 0;
            while i < out.len()
                invariant
                    self.wf(),
                    self.chars@ == old(self).chars@,
                    self.eof_done == old(self).eof_done,
                    old(self).pos <= self.pos,
                decreases out@.len() - i,
            {
                self.emit(Token::Character { data: out[i] });
                i += 1;
            }
        } else if c == '<' {
            self.state = State::TagOpen;
        } else if c == '\0' {
            self.err("unexpected-null-character");
            self.emit(Token::Character { data: c });
        } else {
            self.emit(Token::Character { data: c });
        }
    }

    /// One before-attribute-name character.
    fn step_before_attr_name(&mut self, c: char)
        requires
            old(self).wf(),
        ensures
            final(self).wf(),
            final(self).chars@ == old(self).chars@,
            final(self).pos == old(self).pos,
            final(self).eof_done == old(self).eof_done,
    {
        if is_space(c) {
            // stay
        } else if c == '/' {
            self.state = State::SelfClosingStartTag;
        } else if c == '>' {
            self.finish_attr();
            self.emit_tag();
            self.state = State::Data;
        } else if c == '=' {
            self.err("unexpected-equals-sign-before-attribute-name");
            self.attr_name = Vec::new();
            self.attr_name.push(c);
            self.attr_value = Vec::new();
            self.state = State::AttributeName;
        } else {
            self.attr_name = Vec::new();
            if c == '"' || c == '\'' || c == '<' {
                self.err("unexpected-character-in-attribute-name");
            }
            self.attr_name.push(to_ascii_lower(c));
            self.attr_value = Vec::new();
            self.state = State::AttributeName;
        }
    }

    /// One before-doctype-name character.
    fn step_before_doctype_name(&mut self, c: char)
        requires
            old(self).wf(),
        ensures
            final(self).wf(),
            final(self).chars@ == old(self).chars@,
            final(self).pos == old(self).pos,
            final(self).eof_done == old(self).eof_done,
    {
        if is_space(c) {
            // stay
        } else if c == '>' {
            self.err("missing-doctype-name");
            self.reset_doctype();
            self.dt_force_quirks = true;
            self.emit_doctype(true);
            self.state = State::Data;
        } else {
            self.reset_doctype();
            if c == '\0' {
                self.err("unexpected-null-character");
                self.dt_name.push('\u{fffd}');
            } else {
                self.dt_name.push(to_ascii_lower(c));
            }
            self.dt_has_name = true;
            self.state = State::DoctypeName;
        }
    }

    /// One comment-state character.
    fn step_comment(&mut self, c: char)
        requires
            old(self).wf(),
        ensures
            final(self).wf(),
            final(self).chars@ == old(self).chars@,
            final(self).pos == old(self).pos,
            final(self).eof_done == old(self).eof_done,
    {
        if c == '-' {
            self.state = State::CommentEndDash;
        } else if c == '\0' {
            self.err("unexpected-null-character");
            self.comment.push('\u{fffd}');
        } else {
            self.comment.push(c);
        }
    }

    /// Clears the DOCTYPE fields for a fresh token.
    fn reset_doctype(&mut self)
        requires
            old(self).wf(),
        ensures
            final(self).wf(),
            final(self).chars@ == old(self).chars@,
            final(self).pos == old(self).pos,
            final(self).state == old(self).state,
            final(self).pending@ == old(self).pending@,
            final(self).eof_done == old(self).eof_done,
    {
        self.dt_name = Vec::new();
        self.dt_has_name = false;
        self.dt_public = Vec::new();
        self.dt_has_public = false;
        self.dt_system = Vec::new();
        self.dt_has_system = false;
        self.dt_force_quirks = false;
    }

    /// One step of the machine on the already-consumed character `c`.
    #[verifier::rlimit(100)]
    #[verifier::spinoff_prover]
    fn step(&mut self, c: char)
        requires
            old(self).wf(),
        ensures
            final(self).wf(),
            final(self).chars@ == old(self).chars@,
            old(self).pos <= final(self).pos,
            final(self).eof_done == old(self).eof_done,
    {
        match self.state {
            State::Data => {
                self.step_data(c);
            },
            State::TagOpen => {
                if c == '!' {
                    let n = self.chars.len();
                    if self.pos < n && self.chars[self.pos] == '-' && self.pos + 1 < n
                        && self.chars[self.pos + 1] == '-' {
                        self.pos = self.pos + 2;
                        self.comment = Vec::new();
                        self.state = State::CommentStart;
                    } else if self.markup_decl_is_doctype() {
                        let clen = self.chars.len();
                        proof {
                            assert(self.pos + 7 <= clen);
                        }
                        self.pos = self.pos + 7;
                        self.state = State::Doctype;
                    } else {
                        self.err("incorrectly-opened-comment");
                        self.comment = Vec::new();
                        self.state = State::BogusComment;
                    }
                } else if c == '/' {
                    self.state = State::EndTagOpen;
                } else if is_letter(c) {
                    self.is_end_tag = false;
                    self.self_closing = false;
                    self.attrs = Vec::new();
                    self.attr_name = Vec::new();
                    self.attr_value = Vec::new();
                    self.tag_name = Vec::new();
                    self.tag_name.push(to_ascii_lower(c));
                    self.state = State::TagName;
                } else if c == '?' {
                    self.err("unexpected-question-mark-instead-of-tag-name");
                    self.comment = Vec::new();
                    self.comment.push(c);
                    self.state = State::BogusComment;
                } else {
                    self.err("invalid-first-character-of-tag-name");
                    self.emit(Token::Character { data: '<' });
                    self.state = State::Data;
                    self.step_data(c);
                }
            },
            State::EndTagOpen => {
                if is_letter(c) {
                    self.is_end_tag = true;
                    self.self_closing = false;
                    self.attrs = Vec::new();
                    self.attr_name = Vec::new();
                    self.attr_value = Vec::new();
                    self.tag_name = Vec::new();
                    self.tag_name.push(to_ascii_lower(c));
                    self.state = State::TagName;
                } else if c == '>' {
                    self.err("missing-end-tag-name");
                    self.state = State::Data;
                } else {
                    self.err("invalid-first-character-of-tag-name");
                    self.comment = Vec::new();
                    self.comment.push(c);
                    self.state = State::BogusComment;
                }
            },
            State::TagName => {
                if is_space(c) {
                    self.state = State::BeforeAttributeName;
                } else if c == '/' {
                    self.state = State::SelfClosingStartTag;
                } else if c == '>' {
                    self.emit_tag();
                    self.state = State::Data;
                } else if c == '\0' {
                    self.err("unexpected-null-character");
                    self.tag_name.push('\u{fffd}');
                } else {
                    self.tag_name.push(to_ascii_lower(c));
                }
            },
            State::BeforeAttributeName => {
                self.step_before_attr_name(c);
            },
            State::AttributeName => {
                if is_space(c) {
                    self.state = State::AfterAttributeName;
                } else if c == '/' {
                    self.finish_attr();
                    self.state = State::SelfClosingStartTag;
                } else if c == '=' {
                    self.state = State::BeforeAttributeValue;
                } else if c == '>' {
                    self.finish_attr();
                    self.emit_tag();
                    self.state = State::Data;
                } else if c == '\0' {
                    self.err("unexpected-null-character");
                    self.attr_name.push('\u{fffd}');
                } else {
                    if c == '"' || c == '\'' || c == '<' {
                        self.err("unexpected-character-in-attribute-name");
                    }
                    self.attr_name.push(to_ascii_lower(c));
                }
            },
            State::AfterAttributeName => {
                if is_space(c) {
                    // stay
                } else if c == '/' {
                    self.finish_attr();
                    self.state = State::SelfClosingStartTag;
                } else if c == '=' {
                    self.state = State::BeforeAttributeValue;
                } else if c == '>' {
                    self.finish_attr();
                    self.emit_tag();
                    self.state = State::Data;
                } else {
                    self.finish_attr();
                    if c == '"' || c == '\'' || c == '<' {
                        self.err("unexpected-character-in-attribute-name");
                    }
                    self.attr_name = Vec::new();
                    self.attr_name.push(to_ascii_lower(c));
                    self.attr_value = Vec::new();
                    self.state = State::AttributeName;
                }
            },
            State::BeforeAttributeValue => {
                if is_space(c) {
                    // stay
                } else if c == '"' {
                    self.state = State::AttributeValueDouble;
                } else if c == '\'' {
                    self.state = State::AttributeValueSingle;
                } else if c == '>' {
                    self.err("missing-attribute-value");
                    self.finish_attr();
                    self.emit_tag();
                    self.state = State::Data;
                } else {
                    self.state = State::AttributeValueUnquoted;
                    self.step_attr_value_unquoted(c);
                }
            },
            State::AttributeValueDouble => {
                if c == '"' {
                    self.state = State::AfterAttributeValueQuoted;
                } else if c == '&' {
                    let out = self.char_ref_chars(true);
                    let mut i: usize = 0;
                    while i < out.len()
                        invariant
                            self.wf(),
                            self.chars@ == old(self).chars@,
                            self.eof_done == old(self).eof_done,
                            old(self).pos <= self.pos,
                        decreases out@.len() - i,
                    {
                        self.attr_value.push(out[i]);
                        i += 1;
                    }
                } else if c == '\0' {
                    self.err("unexpected-null-character");
                    self.attr_value.push('\u{fffd}');
                } else {
                    self.attr_value.push(c);
                }
            },
            State::AttributeValueSingle => {
                if c == '\'' {
                    self.state = State::AfterAttributeValueQuoted;
                } else if c == '&' {
                    let out = self.char_ref_chars(true);
                    let mut i: usize = 0;
                    while i < out.len()
                        invariant
                            self.wf(),
                            self.chars@ == old(self).chars@,
                            self.eof_done == old(self).eof_done,
                            old(self).pos <= self.pos,
                        decreases out@.len() - i,
                    {
                        self.attr_value.push(out[i]);
                        i += 1;
                    }
                } else if c == '\0' {
                    self.err("unexpected-null-character");
                    self.attr_value.push('\u{fffd}');
                } else {
                    self.attr_value.push(c);
                }
            },
            State::AttributeValueUnquoted => {
                self.step_attr_value_unquoted(c);
            },
            State::AfterAttributeValueQuoted => {
                if is_space(c) {
                    self.finish_attr();
                    self.state = State::BeforeAttributeName;
                } else if c == '/' {
                    self.finish_attr();
                    self.state = State::SelfClosingStartTag;
                } else if c == '>' {
                    self.finish_attr();
                    self.emit_tag();
                    self.state = State::Data;
                } else {
                    self.err("missing-whitespace-between-attributes");
                    self.finish_attr();
                    self.state = State::BeforeAttributeName;
                    self.step_before_attr_name(c);
                }
            },
            State::SelfClosingStartTag => {
                if c == '>' {
                    self.self_closing = true;
                    self.finish_attr();
                    self.emit_tag();
                    self.state = State::Data;
                } else {
                    self.err("unexpected-solidus-in-tag");
                    self.state = State::BeforeAttributeName;
                    self.step_before_attr_name(c);
                }
            },
            State::BogusComment => {
                if c == '>' {
                    let data = string_of(&self.comment);
                    self.emit(Token::Comment { data });
                    self.state = State::Data;
                } else if c == '\0' {
                    self.err("unexpected-null-character");
                    self.comment.push('\u{fffd}');
                } else {
                    self.comment.push(c);
                }
            },
            State::CommentStart => {
                if c == '-' {
                    self.state = State::CommentStartDash;
                } else if c == '>' {
                    self.err("abrupt-closing-of-empty-comment");
                    let data = string_of(&self.comment);
                    self.emit(Token::Comment { data });
                    self.state = State::Data;
                } else {
                    self.state = State::Comment;
                    self.step_comment(c);
                }
            },
            State::CommentStartDash => {
                if c == '-' {
                    self.state = State::CommentEnd;
                } else if c == '>' {
                    self.err("abrupt-closing-of-empty-comment");
                    let data = string_of(&self.comment);
                    self.emit(Token::Comment { data });
                    self.state = State::Data;
                } else {
                    self.comment.push('-');
                    self.state = State::Comment;
                    self.step_comment(c);
                }
            },
            State::Comment => {
                self.step_comment(c);
            },
            State::CommentEndDash => {
                if c == '-' {
                    self.state = State::CommentEnd;
                } else {
                    self.comment.push('-');
                    self.state = State::Comment;
                    self.step_comment(c);
                }
            },
            State::CommentEnd => {
                if c == '>' {
                    let data = string_of(&self.comment);
                    self.emit(Token::Comment { data });
                    self.state = State::Data;
                } else if c == '-' {
                    self.comment.push('-');
                } else {
                    self.comment.push('-');
                    self.comment.push('-');
                    self.state = State::Comment;
                    self.step_comment(c);
                }
            },
            State::Doctype => {
                if is_space(c) {
                    self.state = State::BeforeDoctypeName;
                } else {
                    self.err("missing-whitespace-before-doctype-name");
                    self.state = State::BeforeDoctypeName;
                    self.step_before_doctype_name(c);
                }
            },
            State::BeforeDoctypeName => {
                self.step_before_doctype_name(c);
            },
            State::DoctypeName => {
                if is_space(c) {
                    self.state = State::AfterDoctypeName;
                } else if c == '>' {
                    self.emit_doctype(false);
                    self.state = State::Data;
                } else if c == '\0' {
                    self.err("unexpected-null-character");
                    self.dt_name.push('\u{fffd}');
                } else {
                    self.dt_name.push(to_ascii_lower(c));
                }
            },
            State::AfterDoctypeName => {
                if is_space(c) {
                    // stay
                } else if c == '>' {
                    self.emit_doctype(false);
                    self.state = State::Data;
                } else {
                    let here = if self.pos >= 1 {
                        self.pos - 1
                    } else {
                        0
                    };
                    if self.peek_keyword(here, true) {
                        let clen = self.chars.len();
                        proof {
                            assert(here + 6 <= clen);
                        }
                        self.pos = here + 6;
                        self.state = State::BeforeDoctypePublicId;
                    } else if self.peek_keyword(here, false) {
                        let clen = self.chars.len();
                        proof {
                            assert(here + 6 <= clen);
                        }
                        self.pos = here + 6;
                        self.state = State::BeforeDoctypeSystemId;
                    } else {
                        self.err("invalid-character-sequence-after-doctype-name");
                        self.dt_force_quirks = true;
                        self.state = State::BogusDoctype;
                    }
                }
            },
            State::BeforeDoctypePublicId => {
                if is_space(c) {
                    // stay
                } else if c == '"' {
                    self.dt_public = Vec::new();
                    self.dt_has_public = true;
                    self.state = State::DoctypePublicIdDouble;
                } else if c == '\'' {
                    self.dt_public = Vec::new();
                    self.dt_has_public = true;
                    self.state = State::DoctypePublicIdSingle;
                } else if c == '>' {
                    self.err("missing-doctype-public-identifier");
                    self.dt_force_quirks = true;
                    self.emit_doctype(true);
                    self.state = State::Data;
                } else {
                    self.err("missing-quote-before-doctype-public-identifier");
                    self.dt_force_quirks = true;
                    self.state = State::BogusDoctype;
                }
            },
            State::DoctypePublicIdDouble => {
                if c == '"' {
                    self.state = State::AfterDoctypePublicId;
                } else if c == '>' {
                    self.err("abrupt-doctype-public-identifier");
                    self.dt_force_quirks = true;
                    self.emit_doctype(true);
                    self.state = State::Data;
                } else if c == '\0' {
                    self.err("unexpected-null-character");
                    self.dt_public.push('\u{fffd}');
                } else {
                    self.dt_public.push(c);
                }
            },
            State::DoctypePublicIdSingle => {
                if c == '\'' {
                    self.state = State::AfterDoctypePublicId;
                } else if c == '>' {
                    self.err("abrupt-doctype-public-identifier");
                    self.dt_force_quirks = true;
                    self.emit_doctype(true);
                    self.state = State::Data;
                } else if c == '\0' {
                    self.err("unexpected-null-character");
                    self.dt_public.push('\u{fffd}');
                } else {
                    self.dt_public.push(c);
                }
            },
            State::AfterDoctypePublicId => {
                if is_space(c) {
                    // stay
                } else if c == '"' {
                    self.dt_system = Vec::new();
                    self.dt_has_system = true;
                    self.state = State::DoctypeSystemIdDouble;
                } else if c == '\'' {
                    self.dt_system = Vec::new();
                    self.dt_has_system = true;
                    self.state = State::DoctypeSystemIdSingle;
                } else if c == '>' {
                    self.emit_doctype(false);
                    self.state = State::Data;
                } else {
                    self.err("missing-quote-before-doctype-system-identifier");
                    self.dt_force_quirks = true;
                    self.state = State::BogusDoctype;
                }
            },
            State::BeforeDoctypeSystemId => {
                if is_space(c) {
                    // stay
                } else if c == '"' {
                    self.dt_system = Vec::new();
                    self.dt_has_system = true;
                    self.state = State::DoctypeSystemIdDouble;
                } else if c == '\'' {
                    self.dt_system = Vec::new();
                    self.dt_has_system = true;
                    self.state = State::DoctypeSystemIdSingle;
                } else if c == '>' {
                    self.err("missing-doctype-system-identifier");
                    self.dt_force_quirks = true;
                    self.emit_doctype(true);
                    self.state = State::Data;
                } else {
                    self.err("missing-quote-before-doctype-system-identifier");
                    self.dt_force_quirks = true;
                    self.state = State::BogusDoctype;
                }
            },
            State::DoctypeSystemIdDouble => {
                if c == '"' {
                    self.state = State::AfterDoctypeSystemId;
                } else if c == '>' {
                    self.err("abrupt-doctype-system-identifier");
                    self.dt_force_quirks = true;
                    self.emit_doctype(true);
                    self.state = State::Data;
                } else if c == '\0' {
                    self.err("unexpected-null-character");
                    self.dt_system.push('\u{fffd}');
                } else {
                    self.dt_system.push(c);
                }
            },
            State::DoctypeSystemIdSingle => {
                if c == '\'' {
                    self.state = State::AfterDoctypeSystemId;
                } else if c == '>' {
                    self.err("abrupt-doctype-system-identifier");
                    self.dt_force_quirks = true;
                    self.emit_doctype(true);
                    self.state = State::Data;
                } else if c == '\0' {
                    self.err("unexpected-null-character");
                    self.dt_system.push('\u{fffd}');
                } else {
                    self.dt_system.push(c);
                }
            },
            State::AfterDoctypeSystemId => {
                if is_space(c) {
                    // stay
                } else if c == '>' {
                    self.emit_doctype(false);
                    self.state = State::Data;
                } else {
                    self.err("unexpected-character-after-doctype-system-identifier");
                    self.state = State::BogusDoctype;
                }
            },
            State::BogusDoctype => {
                if c == '>' {
                    self.emit_doctype(false);
                    self.state = State::Data;
                }
                // anything else: ignored
            },
            State::RawText => {
                if c == '<' {
                    let n = self.chars.len();
                    let tag_len = self.last_start.len();
                    let mut matches_end = self.pos < n && self.chars[self.pos] == '/'
                        && tag_len > 0;
                    if matches_end {
                        let idx = self.pos + 1;
                        let mut i: usize = 0;
                        while i < tag_len
                            invariant
                                self.wf(),
                                n == self.chars@.len(),
                                tag_len == self.last_start@.len(),
                                idx <= n,
                                idx == self.pos + 1,
                                self.pos < n,
                                matches_end ==> idx + i <= n,
                            decreases tag_len - i,
                        {
                            if i >= n - idx {
                                matches_end = false;
                            } else if to_ascii_lower(self.chars[idx + i]) != to_ascii_lower(
                                self.last_start[i],
                            ) {
                                matches_end = false;
                            }
                            i += 1;
                        }
                        if matches_end && tag_len < n - idx {
                            let after = self.chars[idx + tag_len];
                            if !(is_space(after) || after == '/' || after == '>') {
                                matches_end = false;
                            }
                        }
                    }
                    if matches_end {
                        self.pos = self.pos + 1 + tag_len;
                        self.is_end_tag = true;
                        self.self_closing = false;
                        self.attrs = Vec::new();
                        self.attr_name = Vec::new();
                        self.attr_value = Vec::new();
                        self.tag_name = copy_chars(&self.last_start);
                        self.state = State::BeforeAttributeName;
                    } else {
                        self.emit(Token::Character { data: c });
                    }
                } else if c == '\0' {
                    self.err("unexpected-null-character");
                    self.emit(Token::Character { data: '\u{fffd}' });
                } else {
                    self.emit(Token::Character { data: c });
                }
            },
        }
    }

    /// One unquoted-attribute-value character.
    fn step_attr_value_unquoted(&mut self, c: char)
        requires
            old(self).wf(),
        ensures
            final(self).wf(),
            final(self).chars@ == old(self).chars@,
            old(self).pos <= final(self).pos,
            final(self).eof_done == old(self).eof_done,
    {
        if is_space(c) {
            self.finish_attr();
            self.state = State::BeforeAttributeName;
        } else if c == '&' {
            let out = self.char_ref_chars(true);
            let mut i: usize = 0;
            while i < out.len()
                invariant
                    self.wf(),
                    self.chars@ == old(self).chars@,
                    self.eof_done == old(self).eof_done,
                    old(self).pos <= self.pos,
                decreases out@.len() - i,
            {
                self.attr_value.push(out[i]);
                i += 1;
            }
        } else if c == '>' {
            self.finish_attr();
            self.emit_tag();
            self.state = State::Data;
        } else if c == '\0' {
            self.err("unexpected-null-character");
            self.attr_value.push('\u{fffd}');
        } else {
            if c == '"' || c == '\'' || c == '<' || c == '=' || c == '`' {
                self.err("unexpected-character-in-unquoted-attribute-value");
            }
            self.attr_value.push(c);
        }
    }

    /// End-of-input handling for the current state: emits what each state
    /// owes at the end of the stream, then the `EndOfFile` token.
    fn run_eof(&mut self)
        requires
            old(self).wf(),
            old(self).eof_done,
        ensures
            final(self).wf(),
            final(self).chars@ == old(self).chars@,
            final(self).pos == old(self).pos,
            final(self).eof_done == old(self).eof_done,
    {
        match self.state {
            State::Data | State::RawText => {},
            State::TagOpen => {
                self.err("eof-before-tag-name");
                self.emit(Token::Character { data: '<' });
            },
            State::EndTagOpen => {
                self.err("eof-before-tag-name");
                self.emit(Token::Character { data: '<' });
                self.emit(Token::Character { data: '/' });
            },
            State::TagName | State::BeforeAttributeName | State::AttributeName
                | State::AfterAttributeName | State::BeforeAttributeValue
                | State::AttributeValueDouble | State::AttributeValueSingle
                | State::AttributeValueUnquoted | State::AfterAttributeValueQuoted
                | State::SelfClosingStartTag => {
                self.err("eof-in-tag");
            },
            State::BogusComment => {
                let data = string_of(&self.comment);
                self.emit(Token::Comment { data });
            },
            State::CommentStart | State::CommentStartDash | State::Comment
                | State::CommentEndDash | State::CommentEnd => {
                self.err("eof-in-comment");
                let data = string_of(&self.comment);
                self.emit(Token::Comment { data });
            },
            State::Doctype | State::BeforeDoctypeName => {
                self.err("eof-in-doctype");
                self.reset_doctype();
                self.emit_doctype(true);
            },
            State::DoctypeName | State::AfterDoctypeName | State::BeforeDoctypePublicId
                | State::DoctypePublicIdDouble | State::DoctypePublicIdSingle
                | State::AfterDoctypePublicId | State::BeforeDoctypeSystemId
                | State::DoctypeSystemIdDouble | State::DoctypeSystemIdSingle
                | State::AfterDoctypeSystemId => {
                self.err("eof-in-doctype");
                self.emit_doctype(true);
            },
            State::BogusDoctype => {
                self.emit_doctype(false);
            },
        }
        self.pending.push(Token::EndOfFile);
    }

    /// The next token of the stream. Tokens already produced drain first,
    /// in order, with nothing else touched; then the machine consumes
    /// characters until it has produced one, and at the end of the input
    /// it emits what the state owes and finally `EndOfFile`, which comes
    /// only once the whole input is consumed. The progress disjunction is
    /// the caller's termination measure: every call either hands back
    /// `EndOfFile` or advances through the input, the end-of-input step,
    /// or the pending queue.
    pub fn next_token(&mut self) -> (t: Token)
        requires
            old(self).wf(),
        ensures
            final(self).wf(),
            final(self).chars@ == old(self).chars@,
            old(self).pos <= final(self).pos,
            old(self).eof_done ==> final(self).eof_done,
            old(self).pending@.len() > 0 ==> *final(self) == (Tokenizer {
                pending: final(self).pending,
                ..*old(self)
            }) && final(self).pending@ == old(self).pending@.skip(1)
                && t == old(self).pending@[0],
            t is EndOfFile ==> final(self).eof_done
                && final(self).pos == final(self).chars@.len(),
            (t is EndOfFile) || (final(self).pos > old(self).pos) || (!old(self).eof_done
                && final(self).eof_done) || (final(self).pos == old(self).pos
                && final(self).eof_done == old(self).eof_done
                && final(self).pending@.len() < old(self).pending@.len()),
    {
        loop
            invariant
                self.wf(),
                self.chars@ == old(self).chars@,
                old(self).pos <= self.pos,
                old(self).eof_done ==> self.eof_done,
                old(self).pending@.len() > 0 ==> *self == *old(self),
                self.pos == old(self).pos ==> ((self.eof_done == old(self).eof_done
                    && self.pending@.len() == old(self).pending@.len()) || (!old(self).eof_done
                    && self.eof_done)),
            ensures
                self.wf(),
                self.chars@ == old(self).chars@,
                old(self).pos <= self.pos,
                old(self).eof_done ==> self.eof_done,
            decreases self.chars@.len() - self.pos, self.eof_measure(), self.pending@.len(),
        {
            if self.pending.len() > 0 {
                return self.pending.remove(0);
            }
            if self.pos >= self.chars.len() {
                if self.eof_done {
                    return Token::EndOfFile;
                }
                self.eof_done = true;
                self.run_eof();
            } else {
                let c = self.chars[self.pos];
                self.pos = self.pos + 1;
                self.step(c);
            }
        }
    }
}

} // verus!
