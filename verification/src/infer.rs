//! Type inference: the type of a node follows from its children alone, and for a call from
//! the functions of the program.

use vstd::prelude::*;
use vstd::string::*;
use crate::ast::{models, Node, ScopeItems, Type, AST};

verus! {

/// The declared type of the first function of `table` that is called `name`; `Untyped`
/// where there is none.
pub open spec fn callee_type(name: Seq<char>, table: Seq<Node>) -> Type
    decreases table.len(),
{
    if table.len() == 0 {
        Type::Untyped
    } else {
        match table[0] {
            Node::Function(found, _, t, _) if found == name => t,
            _ => callee_type(name, table.drop_first()),
        }
    }
}

/// The type of two branches taken together: theirs where they agree, else `Untyped`.
pub open spec fn unify(left: Type, right: Type) -> Type {
    if left == right {
        left
    } else {
        Type::Untyped
    }
}

/// The type of `node` in a program whose functions are `table`. The arguments of a call
/// are not looked at.
pub open spec fn infer(node: Node, table: Seq<Node>) -> Type
    decreases node,
{
    match node {
        Node::Scope(_) => Type::Untyped,
        Node::Call(name, _) => callee_type(name, table),
        Node::If(_, left, right) => unify(infer(*left, table), infer(*right, table)),
        Node::Literal(_) => Type::Int32,
        Node::Function(_, _, t, body) => unify(t, infer(*body, table)),
        Node::Local(_, param) => param.1,
        Node::BinaryOp(_, left, right) => unify(infer(*left, table), infer(*right, table)),
    }
}

/// The declared type of the first function of `scope_items` that is called `name`.
fn find_callee(name: &String, scope_items: &ScopeItems) -> (t: Type)
    ensures
        t == callee_type(name@, models(scope_items@)),
{
    let ghost table = models(scope_items@);
    let mut i: usize = 0;
    assert(table.skip(0) =~= table);
    while i < scope_items.len()
        invariant
            i <= scope_items.len(),
            table == models(scope_items@),
            callee_type(name@, table) == callee_type(name@, table.skip(i as int)),
        decreases scope_items.len() - i,
    {
        proof {
            let rest = table.skip(i as int);
            assert(rest[0] == scope_items@[i as int]@);
            assert(rest.drop_first() =~= table.skip(i + 1));
        }
        match &scope_items[i] {
            AST::Function(f_name, _, t, _) => {
                if *f_name == *name {
                    return *t;
                }
            },
            _ => {},
        }
        i += 1;
    }
    Type::Untyped
}

impl AST {
    /// The type of this node in a program whose functions are `scope_items`.
    pub fn as_t(&self, scope_items: &ScopeItems) -> (t: Type)
        ensures
            t == infer(self@, models(scope_items@)),
        decreases self,
    {
        match self {
            AST::Scope(_) => Type::Untyped,
            AST::Call(name, _) => find_callee(name, scope_items),
            AST::If(_, left, right) => {
                let l = left.as_t(scope_items);
                if l == right.as_t(scope_items) {
                    l
                } else {
                    Type::Untyped
                }
            },
            AST::Literal(_) => Type::Int32,
            AST::Function(_, _, t, body) => {
                if body.as_t(scope_items) == *t {
                    *t
                } else {
                    Type::Untyped
                }
            },
            AST::Local(_, arg) => arg.1,
            AST::BinaryOp(_, left, right) => {
                let l = left.as_t(scope_items);
                if l == right.as_t(scope_items) {
                    l
                } else {
                    Type::Untyped
                }
            },
        }
    }
}

} // verus!
