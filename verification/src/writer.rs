//! The emitter: a syntax tree as the text of a stack-machine module.

use vstd::prelude::*;
use vstd::string::*;
use crate::ast::{models, BinaryOperation, Constant, Node, ScopeItems, Type, AST};
use crate::decimal::{decimal, push_decimal, push_signed_decimal, signed_decimal};
use crate::infer::infer;

verus! {

/// The word for a type.
pub open spec fn type_text(t: Type) -> Seq<char> {
    match t {
        Type::Int32 => "i32"@,
        Type::Untyped => "none"@,
    }
}

/// The name of the instruction of an operation, behind the type and the dot.
pub open spec fn mnemonic(op: BinaryOperation) -> Seq<char> {
    match op {
        BinaryOperation::Add => "add"@,
        BinaryOperation::Subtract => "sub"@,
        BinaryOperation::Multiply => "mul"@,
        BinaryOperation::Divide => "div"@,
        BinaryOperation::Mod => "mod"@,
        BinaryOperation::GreaterThan => "gt_s"@,
        BinaryOperation::LessThan => "lt_s"@,
    }
}

/// The parameter clause of a function of `n` parameters: one entry for each, numbered from
/// 0, each of the type `i32`, with nothing in between.
pub open spec fn params_text(n: nat) -> Seq<char>
    decreases n,
{
    if n == 0 {
        Seq::empty()
    } else {
        params_text((n - 1) as nat) + "(param $"@ + decimal((n - 1) as nat) + " i32)"@
    }
}

/// The text of `node` in a program whose functions are `table`.
///
/// An operation carries the type of its left operand, a conditional that of its first
/// branch, and the result clause of a function the type of its body.
pub open spec fn render(node: Node, table: Seq<Node>) -> Seq<char>
    decreases node, 0nat,
{
    match node {
        Node::Scope(functions) => "(module "@ + render_all(functions, functions) + ")"@,
        Node::Call(name, args) => "(call $"@ + name + " "@ + render_all(args, table) + ")"@,
        Node::If(cnd, left, right) => "(if "@ + type_text(infer(*left, table)) + " "@ + render(
            *cnd,
            table,
        ) + " "@ + render(*left, table) + " "@ + render(*right, table) + ")"@,
        Node::Literal(Constant::Int32(v)) => "(i32.const "@ + signed_decimal(v as int) + ")"@,
        Node::Function(name, params, _, body) => "(export \""@ + name + "\" $"@ + name
            + ") (func $"@ + name + " "@ + params_text(params.len()) + " (result "@ + type_text(
            infer(*body, table),
        ) + ") "@ + render(*body, table) + ")"@,
        Node::Local(index, _) => "(get_local $"@ + decimal(index) + ")"@,
        Node::BinaryOp(op, left, right) => "("@ + type_text(infer(*left, table)) + "."@
            + mnemonic(op) + " "@ + render(*left, table) + " "@ + render(*right, table) + ")"@,
    }
}

/// The texts of `nodes`, one behind the other with nothing in between.
pub open spec fn render_all(nodes: Seq<Node>, table: Seq<Node>) -> Seq<char>
    decreases nodes, 1nat,
{
    if nodes.len() == 0 {
        Seq::empty()
    } else {
        render_all(nodes.drop_last(), table) + render(nodes.last(), table)
    }
}

impl Type {
    /// The word for this type.
    pub fn to_string(&self) -> (text: String)
        ensures
            text@ == type_text(*self),
    {
        match self {
            Type::Int32 => String::from_str("i32"),
            Type::Untyped => String::from_str("none"),
        }
    }
}

impl BinaryOperation {
    /// The name of the instruction of this operation.
    pub fn instr(&self) -> (text: String)
        ensures
            text@ == mnemonic(*self),
    {
        String::from_str(
            match self {
                BinaryOperation::Add => "add",
                BinaryOperation::Subtract => "sub",
                BinaryOperation::Multiply => "mul",
                BinaryOperation::Divide => "div",
                BinaryOperation::Mod => "mod",
                BinaryOperation::GreaterThan => "gt_s",
                BinaryOperation::LessThan => "lt_s",
            },
        )
    }
}

/// The parameter clause of a function of `n` parameters.
fn params_clause(n: usize) -> (text: String)
    ensures
        text@ == params_text(n as nat),
{
    let mut text = String::new();
    let mut i: usize = 0;
    while i < n
        invariant
            i <= n,
            text@ == params_text(i as nat),
        decreases n - i,
    {
        text.append("(param $");
        push_decimal(&mut text, i as u64);
        text.append(" i32)");
        i += 1;
    }
    text
}

/// The texts of `nodes`, one behind the other.
fn concat_all(nodes: &Vec<AST>, scope_items: &ScopeItems) -> (text: String)
    ensures
        text@ == render_all(models(nodes@), models(scope_items@)),
    decreases nodes, 1nat,
{
    let ghost all = models(nodes@);
    let ghost table = models(scope_items@);
    let mut text = String::new();
    let mut i: usize = 0;
    assert(all.take(0) =~= Seq::empty());
    while i < nodes.len()
        invariant
            i <= nodes.len(),
            all == models(nodes@),
            table == models(scope_items@),
            text@ == render_all(all.take(i as int), table),
        decreases nodes.len() - i,
    {
        proof {
            assert(all.take(i + 1).drop_last() =~= all.take(i as int));
            assert(all.take(i + 1).last() == nodes@[i as int]@);
        }
        let next = nodes[i].as_s(scope_items);
        text.append(next.as_str());
        i += 1;
    }
    assert(all.take(nodes.len() as int) =~= all);
    text
}

impl AST {
    /// The text of this node in a program whose functions are `scope_items`. A scope is
    /// rendered with its own functions as the program.
    pub fn as_s(&self, scope_items: &ScopeItems) -> (text: String)
        ensures
            text@ == render(self@, models(scope_items@)),
        decreases self, 0nat,
    {
        match self {
            AST::Scope(functions) => {
                assert(self@->Scope_0 =~= models(functions@));
                let mut text = String::from_str("(module ");
                text.append(concat_all(functions, functions).as_str());
                text.append(")");
                text
            },
            AST::Call(name, args) => {
                assert(self@->Call_1 =~= models(args@));
                let mut text = String::from_str("(call $");
                text.append(name.as_str());
                text.append(" ");
                text.append(concat_all(args, scope_items).as_str());
                text.append(")");
                text
            },
            AST::If(cnd, left, right) => {
                let mut text = String::from_str("(if ");
                text.append(left.as_t(scope_items).to_string().as_str());
                text.append(" ");
                text.append(cnd.as_s(scope_items).as_str());
                text.append(" ");
                text.append(left.as_s(scope_items).as_str());
                text.append(" ");
                text.append(right.as_s(scope_items).as_str());
                text.append(")");
                text
            },
            AST::Literal(Constant::Int32(v)) => {
                let mut text = String::from_str("(i32.const ");
                push_signed_decimal(&mut text, *v);
                text.append(")");
                text
            },
            AST::Function(name, params, _, body) => {
                let mut text = String::from_str("(export \"");
                text.append(name.as_str());
                text.append("\" $");
                text.append(name.as_str());
                text.append(") (func $");
                text.append(name.as_str());
                text.append(" ");
                text.append(params_clause(params.len()).as_str());
                text.append(" (result ");
                text.append(body.as_t(scope_items).to_string().as_str());
                text.append(") ");
                text.append(body.as_s(scope_items).as_str());
                text.append(")");
                text
            },
            AST::Local(index, _) => {
                let mut text = String::from_str("(get_local $");
                push_decimal(&mut text, *index as u64);
                text.append(")");
                text
            },
            AST::BinaryOp(op, left, right) => {
                let mut text = String::from_str("(");
                text.append(left.as_t(scope_items).to_string().as_str());
                text.append(".");
                text.append(op.instr().as_str());
                text.append(" ");
                text.append(left.as_s(scope_items).as_str());
                text.append(" ");
                text.append(right.as_s(scope_items).as_str());
                text.append(")");
                text
            },
        }
    }
}

/// The text of the module of the functions `ast`.
pub fn to_s(ast: &Vec<AST>) -> (text: String)
    ensures
        text@ == render(Node::Scope(models(ast@)), models(ast@)),
{
    let mut text = String::from_str("(module ");
    text.append(concat_all(ast, ast).as_str());
    text.append(")");
    text
}

} // verus!
