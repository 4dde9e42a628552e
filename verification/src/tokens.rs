use proc_macro2::{LexError, TokenStream};
use vstd::prelude::*;

use crate::generate::{generate, models_resolve};
use crate::schema::schema_ascii;
use crate::schema::Root;

verus! {

#[verifier::external_type_specification]
#[verifier::external_body]
pub struct ExTokenStream(proc_macro2::TokenStream);

#[verifier::external_type_specification]
#[verifier::external_body]
pub struct ExLexError(proc_macro2::LexError);

/// Calls `<proc_macro2::TokenStream as FromStr>::from_str` on the text. The
/// contract claims nothing of the result: whether the text lexes is decided
/// by whichever lexer proc-macro2 picks at run time (the compiler's inside a
/// procedural macro, its own elsewhere), and the tokens are opaque here.
#[verifier::external_body]
fn lex(code: &str) -> (res: Result<TokenStream, LexError>) {
    code.parse::<TokenStream>()
}

/// Why the generated code could not be handed out as tokens.
#[derive(Debug)]
pub enum TokenError {
    /// The code of the model at this position did not lex.
    Unlexable(usize),
}

/// The module of each model of the schema as a token stream, in the schema's order.
///
/// Lexing is done by proc-macro2, whose documentation reserves the right to
/// panic on some lex errors instead of returning them.
pub fn generate_tokens(root: &Root) -> (res: Result<Vec<TokenStream>, TokenError>)
    requires
        root.ast is Some,
        models_resolve(root.ast->Some_0),
        schema_ascii(root.ast->Some_0),
    ensures
        match res {
            Ok(tokens) => tokens@.len() == root.ast->Some_0.models@.len(),
            Err(TokenError::Unlexable(i)) => i < root.ast->Some_0.models@.len(),
        },
{
    let codes = generate(root);
    let mut tokens: Vec<TokenStream> = Vec::new();
    let n = codes.len();
    let mut i: usize = 0;
    while i < n
        invariant
            n == codes@.len(),
            n == root.ast->Some_0.models@.len(),
            i <= n,
            tokens@.len() == i,
        decreases n - i,
    {
        match lex(codes[i].as_str()) {
            Ok(t) => tokens.push(t),
            Err(_) => {
                return Err(TokenError::Unlexable(i));
            },
        }
        i = i + 1;
    }
    Ok(tokens)
}

} // verus!
