//! The lexical tokens the tokenizer hands to the tree builder, and the
//! parse-error records both components append.

use vstd::prelude::*;

verus! {

/// One attribute of a start tag or an element: a name and a value.
#[derive(Debug)]
pub struct Attribute {
    pub name: String,
    pub value: String,
}

impl Attribute {
    /// An attribute with the same name and value.
    pub fn duplicate(&self) -> (a: Attribute)
        ensures
            a.name@ == self.name@,
            a.value@ == self.value@,
    {
        Attribute { name: self.name.clone(), value: self.value.clone() }
    }
}

/// One lexical token. Ownership passes from the tokenizer to the tree
/// builder, which drops it once processed.
#[derive(Debug)]
pub enum Token {
    Doctype {
        name: Option<String>,
        public_id: Option<String>,
        system_id: Option<String>,
        force_quirks: bool,
    },
    StartTag { name: String, attributes: Vec<Attribute>, self_closing: bool },
    EndTag { name: String },
    Comment { data: String },
    Character { data: char },
    EndOfFile,
}

/// A recorded parse error: what went wrong and where in the character
/// stream it was noticed. Errors are diagnostics only; they never steer
/// recovery.
#[derive(Debug)]
pub struct ParseError {
    pub message: String,
    pub location: usize,
}

} // verus!
