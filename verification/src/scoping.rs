//! The trees that the parser builds are well formed: references are resolved, and a
//! program is made of functions.

use vstd::prelude::*;
use crate::ast::{Node, Type};
use crate::error::Expected;
use crate::grammar::{
    expect, next, parse, parse_arg, parse_arg_list, parse_args, parse_atom, parse_expr, parse_fn,
    lemma_position, parse_fn_args, parse_maybe_arith, parse_maybe_if, parse_names, parse_top,
    peek_is, position, Params,
};
use crate::progress::{
    lemma_expect_advances, lemma_parse_arg_advances, lemma_parse_atom_advances,
    lemma_parse_expr_advances, lemma_parse_fn_advances,
};
use crate::token::{lemma_lex_shrinks, Lexeme};

verus! {

/// Whether `node` is as the parser builds it. Inside a function with the parameters
/// `params`, every reference to a parameter holds the first parameter of its name and the
/// index of that parameter. A function declares the type `Int32`, all its parameters have
/// that type, and its body is as the parser builds it inside that function. A program has
/// one function or more, and nothing but functions.
pub open spec fn well_formed(node: Node, params: Params) -> bool
    decreases node,
{
    match node {
        Node::Literal(_) => true,
        Node::Local(index, param) => position(params, param.0) == Some(index) && params[index as int]
            == param,
        Node::BinaryOp(_, left, right) => well_formed(*left, params) && well_formed(
            *right,
            params,
        ),
        Node::If(cnd, left, right) => well_formed(*cnd, params) && well_formed(*left, params)
            && well_formed(*right, params),
        Node::Call(_, args) => forall|k: int|
            0 <= k < args.len() ==> well_formed(#[trigger] args[k], params),
        Node::Function(_, own, declared, body) => {
            &&& declared == Type::Int32
            &&& forall|k: int| 0 <= k < own.len() ==> (#[trigger] own[k]).1 == Type::Int32
            &&& well_formed(*body, own)
        },
        Node::Scope(functions) => {
            &&& functions.len() > 0
            &&& forall|k: int|
                0 <= k < functions.len() ==> (#[trigger] functions[k]) is Function
                    && well_formed(functions[k], params)
        },
    }
}

/// Whether each of `nodes` is well formed inside a function with the parameters `params`.
pub open spec fn all_well_formed(nodes: Seq<Node>, params: Params) -> bool {
    forall|k: int| 0 <= k < nodes.len() ==> well_formed(#[trigger] nodes[k], params)
}

/// What `parse_atom` returns is well formed.
pub proof fn lemma_parse_atom_well_formed(s: Seq<char>, params: Params)
    ensures
        parse_atom(s, params).0 matches Ok(node) ==> well_formed(node, params),
    decreases s.len(), 0nat,
{
    lemma_lex_shrinks(s);
    match next(s) {
        (Ok(Lexeme::ID(name)), rest) => {
            if peek_is(rest, Lexeme::LParen) {
                lemma_lex_shrinks(rest);
                lemma_parse_fn_args_well_formed(next(rest).1, params);
            } else {
                lemma_position(params, name);
            }
        },
        _ => {},
    }
}

/// What `parse_maybe_arith` returns is well formed.
pub proof fn lemma_parse_maybe_arith_well_formed(s: Seq<char>, params: Params)
    ensures
        parse_maybe_arith(s, params).0 matches Ok(node) ==> well_formed(node, params),
    decreases s.len(), 1nat,
{
    lemma_parse_atom_advances(s, params);
    lemma_parse_atom_well_formed(s, params);
    match parse_atom(s, params) {
        (Ok(left), rest) => {
            lemma_lex_shrinks(rest);
            match next(rest) {
                (Ok(token), behind) => {
                    lemma_parse_expr_well_formed(behind, params);
                },
                _ => {},
            }
        },
        _ => {},
    }
}

/// What `parse_maybe_if` returns is well formed.
pub proof fn lemma_parse_maybe_if_well_formed(s: Seq<char>, params: Params)
    ensures
        parse_maybe_if(s, params).0 matches Ok(node) ==> well_formed(node, params),
    decreases s.len(), 2nat,
{
    if peek_is(s, Lexeme::If) {
        lemma_lex_shrinks(s);
        let s1 = next(s).1;
        lemma_parse_expr_advances(s1, params);
        lemma_parse_expr_well_formed(s1, params);
        match parse_expr(s1, params) {
            (Ok(cnd), s2) => {
                lemma_expect_advances(s2, Expected::Then);
                match expect(s2, Expected::Then) {
                    (Ok(_), s3) => {
                        lemma_parse_expr_advances(s3, params);
                        lemma_parse_expr_well_formed(s3, params);
                        match parse_expr(s3, params) {
                            (Ok(yes), s4) => {
                                lemma_expect_advances(s4, Expected::Else);
                                match expect(s4, Expected::Else) {
                                    (Ok(_), s5) => {
                                        lemma_parse_expr_well_formed(s5, params);
                                    },
                                    _ => {},
                                }
                            },
                            _ => {},
                        }
                    },
                    _ => {},
                }
            },
            _ => {},
        }
    } else {
        lemma_parse_maybe_arith_well_formed(s, params);
    }
}

/// What `parse_expr` returns is well formed.
pub proof fn lemma_parse_expr_well_formed(s: Seq<char>, params: Params)
    ensures
        parse_expr(s, params).0 matches Ok(node) ==> well_formed(node, params),
    decreases s.len(), 3nat,
{
    if peek_is(s, Lexeme::LParen) {
        lemma_lex_shrinks(s);
        lemma_parse_expr_well_formed(next(s).1, params);
    } else {
        lemma_parse_maybe_if_well_formed(s, params);
    }
}

/// What `parse_arg_list` returns is well formed.
pub proof fn lemma_parse_arg_list_well_formed(s: Seq<char>, params: Params)
    ensures
        parse_arg_list(s, params).0 matches Ok(nodes) ==> all_well_formed(nodes, params),
    decreases s.len(), 4nat,
{
    lemma_parse_expr_advances(s, params);
    lemma_parse_expr_well_formed(s, params);
    match parse_expr(s, params) {
        (Ok(arg), rest) => {
            lemma_lex_shrinks(rest);
            match next(rest) {
                (Ok(Lexeme::Comma), behind) => {
                    lemma_parse_arg_list_well_formed(behind, params);
                },
                _ => {},
            }
        },
        _ => {},
    }
}

/// What `parse_fn_args` returns is well formed.
pub proof fn lemma_parse_fn_args_well_formed(s: Seq<char>, params: Params)
    ensures
        parse_fn_args(s, params).0 matches Ok(nodes) ==> all_well_formed(nodes, params),
    decreases s.len(), 5nat,
{
    if !peek_is(s, Lexeme::RParen) {
        lemma_parse_arg_list_well_formed(s, params);
    }
}

/// Whether each of `params` has the type `Int32`.
pub open spec fn all_int32(params: Params) -> bool {
    forall|k: int| 0 <= k < params.len() ==> (#[trigger] params[k]).1 == Type::Int32
}

/// The parameters that `parse_names` returns all have the type `Int32`.
pub proof fn lemma_parse_names_int32(s: Seq<char>)
    ensures
        parse_names(s).0 matches Ok(params) ==> all_int32(params),
    decreases s.len(),
{
    lemma_parse_arg_advances(s);
    match parse_arg(s) {
        (Ok(name), rest) => {
            lemma_lex_shrinks(rest);
            match next(rest) {
                (Ok(Lexeme::Comma), behind) => {
                    lemma_parse_names_int32(behind);
                },
                _ => {},
            }
        },
        _ => {},
    }
}

/// What `parse_fn` returns is well formed.
pub proof fn lemma_parse_fn_well_formed(s: Seq<char>, outer: Params)
    ensures
        parse_fn(s).0 matches Ok(node) ==> node is Function && well_formed(node, outer),
{
    match parse_arg(s) {
        (Ok(name), s1) => {
            match expect(s1, Expected::LParen) {
                (Ok(_), s2) => {
                    lemma_parse_names_int32(s2);
                    match parse_args(s2) {
                        (Ok(params), s3) => {
                            match expect(s3, Expected::LBrace) {
                                (Ok(_), s4) => {
                                    lemma_parse_expr_well_formed(s4, params);
                                },
                                _ => {},
                            }
                        },
                        _ => {},
                    }
                },
                _ => {},
            }
        },
        _ => {},
    }
}

/// What `parse_top` returns is well formed.
pub proof fn lemma_parse_top_well_formed(s: Seq<char>, outer: Params)
    ensures
        parse_top(s).0 matches Ok(functions) ==> {
            &&& functions.len() > 0
            &&& forall|k: int|
                0 <= k < functions.len() ==> (#[trigger] functions[k]) is Function
                    && well_formed(functions[k], outer)
        },
    decreases s.len(),
{
    lemma_expect_advances(s, Expected::Function);
    match expect(s, Expected::Function) {
        (Ok(_), rest) => {
            lemma_parse_fn_advances(rest);
            lemma_parse_fn_well_formed(rest, outer);
            match parse_fn(rest) {
                (Ok(function), behind) => {
                    if peek_is(behind, Lexeme::Function) {
                        lemma_parse_top_well_formed(behind, outer);
                    }
                },
                _ => {},
            }
        },
        _ => {},
    }
}

/// Every program that the parser returns is well formed.
pub proof fn lemma_parse_well_formed(s: Seq<char>)
    ensures
        parse(s).0 matches Ok(program) ==> program is Scope && well_formed(
            program,
            Seq::empty(),
        ),
{
    lemma_parse_top_well_formed(s, Seq::empty());
}

} // verus!
