//! A no-op token-stream expansion: every invocation expands to nothing.
//!
//! The library models a compile-time macro that accepts an arbitrary
//! sequence of lexical tokens, inspects none of them, and always yields
//! the empty sequence.

use vstd::prelude::*;

verus! {

/// One lexical token, carried as the source text it stands for.
/// The expansion never inspects a token.
pub struct Token {
    /// The token's source text.
    pub text: String,
}

/// What an expansion yields for a given input: the empty sequence,
/// whatever the input holds.
pub open spec fn expansion_of(input: Seq<Token>) -> Seq<Token> {
    Seq::empty()
}

/// Expands an invocation site: accepts any token sequence and yields the
/// empty token sequence. It cannot fail and has no side effects.
pub fn foo(input: Vec<Token>) -> (expanded: Vec<Token>)
    ensures
        expanded@ == expansion_of(input@),
        expanded@.len() == 0,
{
    Vec::new()
}

/// The expansion is constant across inputs: any two invocations, whether
/// on the same tokens or on different ones, yield the same (empty) output.
pub proof fn lemma_expansion_constant(a: Seq<Token>, b: Seq<Token>)
    ensures
        expansion_of(a) == expansion_of(b),
{
}

/// The expansion is idempotent: expanding what an expansion produced
/// yields that expansion back unchanged.
pub proof fn lemma_expansion_idempotent(input: Seq<Token>)
    ensures
        expansion_of(expansion_of(input)) == expansion_of(input),
{
}

} // verus!
