use vstd::prelude::*;

use crate::rng::UNIT;

verus! {

/// An expression tree: a grammar's template, or a generated program.
///
/// A number is a fixed-point value in billionths: `Number(v)` stands for
/// `v / UNIT`. `Random` and `Rule` occur in templates only; generation
/// replaces each `Random` by a `Number` and each `Rule` by a tree of that
/// rule. `Triple` is the root of a program that yields a colour.
#[derive(Debug, PartialEq)]
pub enum Node {
    X,
    Y,
    Random,
    Rule(usize),
    Number(i64),
    Boolean(bool),
    Sqrt(Box<Node>),
    Sin(Box<Node>),
    Cos(Box<Node>),
    Exp(Box<Node>),
    Add(Box<Node>, Box<Node>),
    Mult(Box<Node>, Box<Node>),
    Div(Box<Node>, Box<Node>),
    Modulo(Box<Node>, Box<Node>),
    Gt(Box<Node>, Box<Node>),
    Triple(Box<Node>, Box<Node>, Box<Node>),
    If { cond: Box<Node>, then_node: Box<Node>, else_node: Box<Node> },
    Mix(Box<Node>, Box<Node>, Box<Node>, Box<Node>),
}

impl Node {
    /// The number of nodes in the tree.
    pub open spec fn size(self) -> nat
        decreases self,
    {
        match self {
            Node::Sqrt(a) | Node::Sin(a) | Node::Cos(a) | Node::Exp(a) => 1 + a.size(),
            Node::Add(a, b) | Node::Mult(a, b) | Node::Div(a, b) | Node::Modulo(a, b) | Node::Gt(
                a,
                b,
            ) => 1 + a.size() + b.size(),
            Node::Triple(a, b, c) => 1 + a.size() + b.size() + c.size(),
            Node::If { cond, then_node, else_node } => 1 + cond.size() + then_node.size()
                + else_node.size(),
            Node::Mix(a, b, c, d) => 1 + a.size() + b.size() + c.size() + d.size(),
            _ => 1,
        }
    }

    /// The tree holds no `Random` and no `Rule` placeholder: it is a
    /// program, as generation produces, and not a template.
    pub open spec fn is_generated(self) -> bool
        decreases self,
    {
        match self {
            Node::Random | Node::Rule(_) => false,
            Node::Sqrt(a) | Node::Sin(a) | Node::Cos(a) | Node::Exp(a) => a.is_generated(),
            Node::Add(a, b) | Node::Mult(a, b) | Node::Div(a, b) | Node::Modulo(a, b) | Node::Gt(
                a,
                b,
            ) => a.is_generated() && b.is_generated(),
            Node::Triple(a, b, c) => a.is_generated() && b.is_generated() && c.is_generated(),
            Node::If { cond, then_node, else_node } => cond.is_generated()
                && then_node.is_generated() && else_node.is_generated(),
            Node::Mix(a, b, c, d) => a.is_generated() && b.is_generated() && c.is_generated()
                && d.is_generated(),
            _ => true,
        }
    }
}

impl Clone for Node {
    /// A copy of the tree, node by node.
    fn clone(&self) -> (r: Self)
        ensures
            r == *self,
        decreases self,
    {
        match self {
            Node::X => Node::X,
            Node::Y => Node::Y,
            Node::Random => Node::Random,
            Node::Rule(i) => Node::Rule(*i),
            Node::Number(v) => Node::Number(*v),
            Node::Boolean(b) => Node::Boolean(*b),
            Node::Sqrt(a) => Node::Sqrt(Box::new((**a).clone())),
            Node::Sin(a) => Node::Sin(Box::new((**a).clone())),
            Node::Cos(a) => Node::Cos(Box::new((**a).clone())),
            Node::Exp(a) => Node::Exp(Box::new((**a).clone())),
            Node::Add(a, b) => Node::Add(Box::new((**a).clone()), Box::new((**b).clone())),
            Node::Mult(a, b) => Node::Mult(Box::new((**a).clone()), Box::new((**b).clone())),
            Node::Div(a, b) => Node::Div(Box::new((**a).clone()), Box::new((**b).clone())),
            Node::Modulo(a, b) => Node::Modulo(Box::new((**a).clone()), Box::new((**b).clone())),
            Node::Gt(a, b) => Node::Gt(Box::new((**a).clone()), Box::new((**b).clone())),
            Node::Triple(a, b, c) => Node::Triple(
                Box::new((**a).clone()),
                Box::new((**b).clone()),
                Box::new((**c).clone()),
            ),
            Node::If { cond, then_node, else_node } => Node::If {
                cond: Box::new((**cond).clone()),
                then_node: Box::new((**then_node).clone()),
                else_node: Box::new((**else_node).clone()),
            },
            Node::Mix(a, b, c, d) => Node::Mix(
                Box::new((**a).clone()),
                Box::new((**b).clone()),
                Box::new((**c).clone()),
                Box::new((**d).clone()),
            ),
        }
    }
}

} // verus!
