//! What holds of the lexer, the parser, type inference and the emitter taken together.

use vstd::prelude::*;
use crate::ast::{models, BinaryOperation, Node, ScopeItems, Type, AST};
use crate::error::{CompileError, Failure};
use crate::grammar;
use crate::grammar::Params;
use crate::infer::infer;
use crate::lexer::read;
use crate::parse::is_node;
use crate::progress::lemma_parse_atom_advances;
use crate::token::{operation, Lexeme};
use crate::writer::{mnemonic, params_text, render, render_all};

verus! {

/// A tree that is made of literals and binary operations only.
pub open spec fn is_arithmetic(node: Node) -> bool
    decreases node,
{
    match node {
        Node::Literal(_) => true,
        Node::BinaryOp(_, left, right) => is_arithmetic(*left) && is_arithmetic(*right),
        _ => false,
    }
}

/// Whether `part` is `node` itself or lies somewhere below an operation of `node`.
pub open spec fn is_operand_of(part: Node, node: Node) -> bool
    decreases node,
{
    part == node || match node {
        Node::BinaryOp(_, left, right) => is_operand_of(part, *left) || is_operand_of(
            part,
            *right,
        ),
        _ => false,
    }
}

/// A tree of literals and binary operations has the type `Int32` in every program, and so
/// has each of its operands, however deep.
pub proof fn lemma_arithmetic_is_int32(node: Node, part: Node, table: Seq<Node>)
    requires
        is_arithmetic(node),
        is_operand_of(part, node),
    ensures
        is_arithmetic(part),
        infer(part, table) == Type::Int32,
    decreases node,
{
    if part == node {
        match node {
            Node::BinaryOp(_, left, right) => {
                lemma_arithmetic_is_int32(*left, *left, table);
                lemma_arithmetic_is_int32(*right, *right, table);
            },
            _ => {},
        }
    } else {
        match node {
            Node::BinaryOp(_, left, right) => {
                if is_operand_of(part, *left) {
                    lemma_arithmetic_is_int32(*left, part, table);
                } else {
                    lemma_arithmetic_is_int32(*right, part, table);
                }
            },
            _ => {},
        }
    }
}

/// In a tree of literals and binary operations, the instruction of every operation carries
/// the type `i32`.
pub proof fn lemma_arithmetic_instructions(
    node: Node,
    op: BinaryOperation,
    left: Node,
    right: Node,
    table: Seq<Node>,
)
    requires
        is_arithmetic(node),
        is_operand_of(Node::BinaryOp(op, Box::new(left), Box::new(right)), node),
    ensures
        render(Node::BinaryOp(op, Box::new(left), Box::new(right)), table) == "("@ + "i32"@
            + "."@ + mnemonic(op) + " "@ + render(left, table) + " "@ + render(right, table)
            + ")"@,
{
    let part = Node::BinaryOp(op, Box::new(left), Box::new(right));
    lemma_arithmetic_is_int32(node, part, table);
    lemma_arithmetic_is_int32(left, left, table);
}

/// A program of one function whose body is made of literals and binary operations is
/// emitted with the result type `i32`, whatever type the function declares.
pub proof fn lemma_arithmetic_program(
    name: Seq<char>,
    params: Params,
    declared: Type,
    body: Node,
    table: Seq<Node>,
)
    requires
        is_arithmetic(body),
    ensures
        ({
            let function = Node::Function(name, params, declared, Box::new(body));
            let program = seq![function];
            &&& infer(body, program) == Type::Int32
            &&& render(function, program) == "(export \""@ + name + "\" $"@ + name
                + ") (func $"@ + name + " "@ + params_text(params.len()) + " (result "@ + "i32"@
                + ") "@ + render(body, program) + ")"@
            &&& render(Node::Scope(program), table) == "(module "@ + render(function, program)
                + ")"@
        }),
{
    let function = Node::Function(name, params, declared, Box::new(body));
    let program = seq![function];
    lemma_arithmetic_is_int32(body, body, program);
    assert(program.drop_last() =~= Seq::<Node>::empty());
    assert(program.last() == function);
    reveal_with_fuel(render_all, 2);
    assert(render_all(program, program) =~= render(function, program));
}

/// Parsing is a function of the text: two runs of the parser on the same text end with the
/// same cursor, and with syntax trees, or errors, that stand for the same.
pub proof fn lemma_parse_deterministic(
    text: Seq<char>,
    first: Result<AST, CompileError>,
    first_left: Seq<char>,
    second: Result<AST, CompileError>,
    second_left: Seq<char>,
)
    requires
        is_node(first, first_left, grammar::parse(text)),
        is_node(second, second_left, grammar::parse(text)),
    ensures
        first_left == second_left,
        first is Ok <==> second is Ok,
        first is Ok ==> first->Ok_0@ == second->Ok_0@,
        first is Err ==> first->Err_0@ == second->Err_0@,
{
}

/// Rendering is a function of the tree: two runs of the emitter on syntax trees that stand
/// for the same tree, in programs that stand for the same, give the same text.
pub proof fn lemma_render_deterministic(
    first: AST,
    first_scope: ScopeItems,
    first_text: String,
    second: AST,
    second_scope: ScopeItems,
    second_text: String,
)
    requires
        first@ == second@,
        models(first_scope@) == models(second_scope@),
        first_text@ == render(first@, models(first_scope@)),
        second_text@ == render(second@, models(second_scope@)),
    ensures
        first_text@ == second_text@,
{
}

/// The text in the cursor after `n` peeks in a row, starting from `s`.
pub open spec fn after_peeks(s: Seq<char>, n: nat) -> Seq<char>
    decreases n,
{
    if n == 0 {
        s
    } else {
        read(after_peeks(s, (n - 1) as nat), true).1
    }
}

/// A peek leaves the cursor as it is and shows the token that a read would take. So after
/// any number of peeks a read gives what it would have given at once.
pub proof fn lemma_peek_is_pure(s: Seq<char>, n: nat)
    ensures
        read(s, true).1 == s,
        read(s, true).0 == read(s, false).0,
        after_peeks(s, n) == s,
        read(after_peeks(s, n), false) == read(s, false),
    decreases n,
{
    if n > 0 {
        lemma_peek_is_pure(s, (n - 1) as nat);
    }
}

/// Operators nest to the right, whatever they are. Let the text `s` hold `a op1 b op2 c`,
/// where `a` and `b` are atoms and `c` is all of the expression behind `op2`, and let `s1`
/// to `s5` be what is left behind each of the five. Then `s` is parsed as `a op1 (b op2 c)`.
pub proof fn lemma_right_associative(
    params: Params,
    s: Seq<char>,
    a: Node,
    s1: Seq<char>,
    op1: Lexeme,
    s2: Seq<char>,
    b: Node,
    s3: Seq<char>,
    op2: Lexeme,
    s4: Seq<char>,
    c: Node,
    s5: Seq<char>,
)
    requires
        grammar::parse_atom(s, params) == (Ok::<Node, Failure>(a), s1),
        grammar::next(s1) == (Ok::<Lexeme, Failure>(op1), s2),
        operation(op1) is Some,
        grammar::parse_atom(s2, params) == (Ok::<Node, Failure>(b), s3),
        grammar::next(s3) == (Ok::<Lexeme, Failure>(op2), s4),
        operation(op2) is Some,
        grammar::parse_expr(s4, params) == (Ok::<Node, Failure>(c), s5),
    ensures
        grammar::parse_expr(s, params) == (
            Ok::<Node, Failure>(
                Node::BinaryOp(
                    operation(op1)->0,
                    Box::new(a),
                    Box::new(Node::BinaryOp(operation(op2)->0, Box::new(b), Box::new(c))),
                ),
            ),
            s5,
        ),
{
    lemma_parse_atom_advances(s, params);
    lemma_parse_atom_advances(s2, params);
    lemma_atom_first(s, params);
    lemma_atom_first(s2, params);
    assert(grammar::parse_maybe_arith(s2, params) == (
        Ok::<Node, Failure>(Node::BinaryOp(operation(op2)->0, Box::new(b), Box::new(c))),
        s5,
    ));
}

/// Text that begins with an atom begins neither with `(` nor with `if`: as an expression
/// it is an atom with, maybe, an operator and a right operand.
pub proof fn lemma_atom_first(s: Seq<char>, params: Params)
    requires
        grammar::parse_atom(s, params).0 is Ok,
    ensures
        grammar::parse_expr(s, params) == grammar::parse_maybe_arith(s, params),
{
    assert(!grammar::peek_is(s, Lexeme::LParen));
    assert(!grammar::peek_is(s, Lexeme::If));
    assert(grammar::parse_expr(s, params) == grammar::parse_maybe_if(s, params));
}

} // verus!
