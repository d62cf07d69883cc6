//! Parsers bound to the session's grammar.

use crate::error::Error;
use crate::syntax::{grammar_accepted, language_of, parser_new, parser_set_language};
use vstd::prelude::*;

verus! {

/// A fresh parser bound to `language`, exactly where the engine takes the
/// grammar; where it refuses, the failure is `Error::ParserInit`.
pub fn javascript(language: &tree_sitter::Language) -> (result: Result<tree_sitter::Parser, Error>)
    ensures
        result is Ok <==> grammar_accepted(*language),
        result matches Ok(parser) ==> language_of(parser) == Some(*language),
        result matches Err(error) ==> error == Error::ParserInit,
{
    let mut parser = parser_new();
    let outcome = parser_set_language(&mut parser, language);
    bound(parser, outcome)
}

/// What becomes of a parser after the engine was asked to take a grammar:
/// the parser itself where the engine took it, and `Error::ParserInit`,
/// whatever the engine's reason, where it refused.
pub fn bound<E>(parser: tree_sitter::Parser, outcome: Result<(), E>) -> (result: Result<
    tree_sitter::Parser,
    Error,
>)
    ensures
        outcome is Ok ==> result == Ok::<tree_sitter::Parser, Error>(parser),
        outcome is Err ==> result == Err::<tree_sitter::Parser, Error>(Error::ParserInit),
{
    match outcome {
        Ok(_) => Ok(parser),
        Err(_) => Err(Error::ParserInit),
    }
}

} // verus!
