//! Diagnostics reported by the analysis.
use vstd::prelude::*;
use crate::token::Token;

verus! {

/// A diagnostic: what is wrong, the offending text, and where it stands.
#[derive(Clone, Debug)]
pub enum AnalyzerError {
    /// A name declared twice in one namespace.
    DuplicatedIdentifier { identifier: String, token: Token },
    /// A system function that is not among the recognized ones.
    InvalidSystemFunction { name: String, input: String, token: Token },
}

impl AnalyzerError {
    pub fn duplicated_identifier(identifier: &str, token: &Token) -> (r: AnalyzerError)
        ensures
            r is DuplicatedIdentifier,
            r->DuplicatedIdentifier_identifier@ == identifier@,
            r->DuplicatedIdentifier_token == *token,
    {
        AnalyzerError::DuplicatedIdentifier {
            identifier: identifier.to_owned(),
            token: token.duplicate(),
        }
    }

    pub fn invalid_system_function(name: &str, input: &str, token: &Token) -> (r: AnalyzerError)
        ensures
            r is InvalidSystemFunction,
            r->InvalidSystemFunction_name@ == name@,
            r->InvalidSystemFunction_input@ == input@,
            r->InvalidSystemFunction_token == *token,
    {
        AnalyzerError::InvalidSystemFunction {
            name: name.to_owned(),
            input: input.to_owned(),
            token: token.duplicate(),
        }
    }
}

} // verus!
