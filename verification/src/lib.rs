//! A front end for a small expression language. It turns source text into the text of a
//! stack-machine module: a lexer with one token of lookahead, a recursive-descent parser,
//! type inference on the syntax tree, and an emitter.
//!
//! `grammar`, `infer` and `writer` say in mathematical terms what parsing, typing and
//! rendering are; `lexer`, `parse` and the methods of `AST` compute them, and are proved to.

use vstd::prelude::*;
use vstd::string::*;

pub mod ast;
pub mod chars;
pub mod decimal;
pub mod error;
pub mod grammar;
pub mod infer;
pub mod laws;
pub mod lexer;
pub mod parse;
pub mod pattern;
pub mod progress;
pub mod scoping;
pub mod token;
pub mod writer;

pub use crate::ast::{BinaryOperation, Constant, Type, AST};
pub use crate::error::{CompileError, Expected, LexError, ParseError};
pub use crate::token::Token;

verus! {

/// Compiles the program `source` to the text of its module. Nothing is returned of a
/// program in which parsing stops; text behind the last function is not read.
pub fn compile(source: &str) -> (res: Result<String, CompileError>)
    ensures
        match grammar::parse(source@).0 {
            Ok(program) => res matches Ok(text) && text@ == writer::render(
                program,
                Seq::empty(),
            ),
            Err(e) => res matches Err(err) && err@ == e,
        },
{
    let mut cur = String::from_str(source);
    let program = parse::parse(&mut cur)?;
    let scope_items: Vec<AST> = Vec::new();
    assert(ast::models(scope_items@) =~= Seq::empty());
    Ok(program.as_s(&scope_items))
}

} // verus!
