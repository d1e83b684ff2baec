//! Source identity of a syntactic unit.
use vstd::prelude::*;

verus! {

/// The text of a lexical unit and where it stands in the source.
#[derive(Clone, Debug)]
pub struct Token {
    pub text: String,
    pub line: usize,
    pub column: usize,
}

impl Token {
    pub fn new(text: &str, line: usize, column: usize) -> (r: Token)
        ensures
            r.text@ == text@,
            r.line == line,
            r.column == column,
    {
        Token { text: text.to_owned(), line, column }
    }

    /// A copy of this token.
    pub fn duplicate(&self) -> (r: Token)
        ensures
            r == *self,
    {
        Token { text: self.text.clone(), line: self.line, column: self.column }
    }
}

} // verus!
