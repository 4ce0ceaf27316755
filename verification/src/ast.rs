//! The expression tree model: a closed set of node variants, each node
//! owning its children exclusively (a tree, never a graph).

use vstd::prelude::*;
use crate::ast::utils::PositiveFiniteF64;

pub mod utils;

verus! {

/// One node of an expression tree.
#[allow(inconsistent_fields)]
pub enum Expr {
    /// Integer literal; values are non-negative at this level, negation is
    /// represented structurally via `UnaryOp::Neg`.
    Int(u64),
    /// Floating-point literal, always finite and non-negative.
    Float(PositiveFiniteF64),
    /// String literal.
    Str(String),
    /// Boolean literal.
    Bool(bool),
    /// Reference to a named enum constant, scoped by a path.
    EnumMember { enum_path: Vec<String>, label: String },
    /// Literal list.
    List(Vec<Expr>),
    /// Reference to a named value in scope.
    Name(String),
    /// Field or property access.
    Attribute { value: Box<Expr>, attr_name: String },
    /// Method invocation.
    MethodCall { value: Box<Expr>, method_name: String, args: Vec<Expr> },
    /// Prefix unary expression.
    UnaryOp { op: UnaryOp, v: Box<Expr> },
    /// Infix binary expression.
    BinaryOp { l: Box<Expr>, op: BinaryOp, r: Box<Expr> },
    /// Ternary conditional expression.
    CondOp { cond: Box<Expr>, if_true: Box<Expr>, if_false: Box<Expr> },
    /// Indexing expression.
    Subscript { value: Box<Expr>, idx: Box<Expr> },
}

/// Tag of a prefix unary operator.
#[derive(Copy, Clone, Debug, Eq, PartialEq, Hash)]
pub enum UnaryOp {
    /// `-`: Negation
    Neg,
    /// `not`: Logical NOT
    Not,
    /// `~`: Bitwise NOT
    Inv,
}

/// Tag of an infix binary operator.
#[derive(Copy, Clone, Debug, Eq, PartialEq, Hash)]
pub enum BinaryOp {
    /// `+`: Addition or concatenation
    Add,
    /// `-`: Subtraction
    Sub,
    /// `*`: Multiplication
    Mul,
    /// `/`: Division
    Div,
    /// `%`: Remainder of division
    Rem,
    /// `==`: Equal to
    Eq,
    /// `!=`: Not equal to
    Ne,
    /// `<`: Less than
    Lt,
    /// `<=`: Less than or equal to
    Le,
    /// `>`: Greater than
    Gt,
    /// `>=`: Greater than or equal to
    Ge,
    /// `and`: Logical AND
    And,
    /// `or`: Logical OR
    Or,
    /// `|`: Bitwise OR
    BitOr,
    /// `^`: Bitwise XOR
    BitXor,
    /// `&`: Bitwise AND
    BitAnd,
    /// `<<`: Bitwise left shift
    Shl,
    /// `>>`: Bitwise right shift
    Shr,
}

} // verus!
