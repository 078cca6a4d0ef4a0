//! The expression part of the syntax tree: what constant evaluation and
//! expression lowering read.
use vstd::prelude::*;
use crate::util::span::Span;

verus! {

/// A literal. A float literal is held by its IEEE-754 bit pattern.
#[derive(Debug)]
pub enum Literal {
    Int(i128),
    Float(u64),
    Bool(bool),
    String(String),
    Char(char),
    Void,
}

/// Binary operators.
#[derive(Debug, Clone, Copy, PartialEq, Eq, Structural)]
pub enum BinOp {
    Add,
    Sub,
    Mul,
    Div,
    Mod,
    Eq,
    Neq,
    Lt,
    Le,
    Gt,
    Ge,
    And,
    Or,
    BitAnd,
    BitOr,
    BitXor,
    Shl,
    Shr,
    Range,
    Assign,
}

/// Unary operators.
#[derive(Debug, Clone, Copy, PartialEq, Eq, Structural)]
pub enum UnOp {
    Neg,
    Not,
}

/// A piece of an interpolated string: literal text, or an expression with
/// an optional format specification.
#[derive(Debug)]
pub enum FStringSegment {
    Text(String),
    Interpolation { expr: Box<Expr>, format_spec: Option<String> },
}

/// Expressions: literals, variables, operator applications and
/// interpolated strings.
#[derive(Debug)]
pub enum Expr {
    Lit(Literal, Span),
    Var(String, Span),
    BinOp { op: BinOp, left: Box<Expr>, right: Box<Expr>, span: Span },
    UnOp { op: UnOp, expr: Box<Expr>, span: Span },
    FString { segments: Vec<FStringSegment>, span: Span },
}

/// Statements inside a function body.
#[derive(Debug)]
pub enum Stmt {
    /// An expression evaluated for its effect.
    Expr(Expr),
    /// A binding or assignment `target = value`; without a value the
    /// variable is declared.
    Assign { target: Expr, value: Option<Expr>, span: Span },
    /// A return, with or without a value.
    Return(Option<Expr>, Span),
    /// A conditional: the first branch whose condition holds runs, else the
    /// `else` branch if there is one. Each branch is a block of statements.
    If {
        condition: Expr,
        then_branch: Vec<Stmt>,
        else_if_branches: Vec<(Expr, Vec<Stmt>)>,
        else_branch: Option<Vec<Stmt>>,
        span: Span,
    },
    /// An import, resolved before code is generated.
    Use,
}

} // verus!
