//! The syntax tree, and the mathematical tree that it stands for.

use vstd::prelude::*;

verus! {

/// A scalar constant.
#[derive(Clone, Copy, Debug, PartialEq, Eq, Structural)]
pub enum Constant {
    Int32(i32),
}

/// The type of a node. `Untyped` marks a node that has no valid type.
#[derive(Clone, Copy, Debug, PartialEq, Eq, Structural)]
pub enum Type {
    Untyped,
    Int32,
}

/// The operations that take two operands.
#[derive(Clone, Copy, Debug, PartialEq, Eq, Structural)]
pub enum BinaryOperation {
    Add,
    Subtract,
    Multiply,
    Divide,
    Mod,
    GreaterThan,
    LessThan,
}

/// A parameter: its name and its type.
pub type Arg = (String, Type);

/// The parameters of a function, in their order.
pub type Args = Vec<Arg>;

/// The functions of a program, among which a call finds the function it names.
pub type ScopeItems = Vec<AST>;

/// A node of the syntax tree. Every node owns its children.
#[derive(Debug, PartialEq, Eq)]
pub enum AST {
    /// A constant.
    Literal(Constant),
    /// A function: its name, its parameters, its declared type and its body.
    Function(String, Args, Type, Box<AST>),
    /// An operation with its left and its right operand.
    BinaryOp(BinaryOperation, Box<AST>, Box<AST>),
    /// A reference to a parameter of the enclosing function: its index and the parameter.
    Local(usize, Arg),
    /// A conditional: the condition, the branch taken where it holds, and the other branch.
    If(Box<AST>, Box<AST>, Box<AST>),
    /// A call of the function of this name with these arguments.
    Call(String, Vec<AST>),
    /// A program: its functions in the order of the text.
    Scope(ScopeItems),
}

/// What an `AST` stands for: the same tree over mathematical text and sequences. The
/// contracts of the library speak of this type.
pub enum Node {
    Literal(Constant),
    Function(Seq<char>, Seq<(Seq<char>, Type)>, Type, Box<Node>),
    BinaryOp(BinaryOperation, Box<Node>, Box<Node>),
    Local(nat, (Seq<char>, Type)),
    If(Box<Node>, Box<Node>, Box<Node>),
    Call(Seq<char>, Seq<Node>),
    Scope(Seq<Node>),
}

/// What a parameter stands for.
pub open spec fn param_view(a: Arg) -> (Seq<char>, Type) {
    (a.0@, a.1)
}

/// What a list of parameters stands for.
pub open spec fn params_view(args: Seq<Arg>) -> Seq<(Seq<char>, Type)> {
    args.map_values(|a: Arg| param_view(a))
}

impl AST {
    /// The tree that this value stands for.
    pub open spec fn model(self) -> Node
        decreases self,
    {
        match self {
            AST::Literal(c) => Node::Literal(c),
            AST::Function(name, args, t, body) => Node::Function(
                name@,
                params_view(args@),
                t,
                Box::new(body.model()),
            ),
            AST::BinaryOp(op, l, r) => Node::BinaryOp(op, Box::new(l.model()), Box::new(r.model())),
            AST::Local(i, arg) => Node::Local(i as nat, param_view(arg)),
            AST::If(c, l, r) => Node::If(
                Box::new(c.model()),
                Box::new(l.model()),
                Box::new(r.model()),
            ),
            AST::Call(name, args) => Node::Call(name@, Seq::new(
                    args.len() as nat,
                    |i: int| if 0 <= i < args.len() { args[i].model() } else { arbitrary() },
                )),
            AST::Scope(items) => Node::Scope(Seq::new(
                    items.len() as nat,
                    |i: int| if 0 <= i < items.len() { items[i].model() } else { arbitrary() },
                )),
        }
    }
}

impl View for AST {
    type V = Node;

    open spec fn view(&self) -> Node {
        self.model()
    }
}

/// The trees that several syntax trees stand for.
pub open spec fn models(items: Seq<AST>) -> Seq<Node> {
    Seq::new(items.len(), |i: int| items[i]@)
}

impl AST {
    /// The literal of the number `x`.
    pub fn lit(x: i32) -> (node: AST)
        ensures
            node@ == Node::Literal(Constant::Int32(x)),
    {
        AST::Literal(Constant::Int32(x))
    }
}

} // verus!
