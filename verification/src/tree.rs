//! The resolved syntax tree that the checks read.
//!
//! The host front-end parses, resolves names and infers types; what the
//! checks read of the result is held here as plain values.  A local binding
//! and a declared function are each known by a number that the host keeps
//! stable and alias-independent.

use vstd::prelude::*;
use crate::span::Span;

verus! {

/// What kind of definition a path leads to.
#[derive(Clone, Copy, Debug, PartialEq, Eq, Structural)]
pub enum DefKind {
    Fn,
    AssocFn,
    Ctor,
    Other,
}

/// What a path was resolved to.
#[derive(Clone, Copy, Debug, PartialEq, Eq, Structural)]
pub enum Res {
    /// A local binding, by its identity.
    Local(u64),
    /// A definition of the given kind, by its identity.
    Def(DefKind, u64),
    /// Anything else, or nothing.
    Unresolved,
}

/// A path expression such as `x` or `std::ptr::null`.
#[derive(Clone, Debug)]
pub struct Path {
    pub res: Res,
    /// True where the path goes through a type (`<T>::f`, `T::f`).
    pub qualified: bool,
    pub segments: Vec<String>,
}

#[derive(Clone, Copy, Debug, PartialEq, Eq, Structural)]
pub enum LitKind {
    Int(u128),
    Float,
    Other,
}

/// A literal; `suffixed` tells whether its type was written behind it.
#[derive(Clone, Copy, Debug, PartialEq, Eq, Structural)]
pub struct Lit {
    pub kind: LitKind,
    pub suffixed: bool,
    pub span: Span,
}

#[derive(Clone, Copy, Debug, PartialEq, Eq, Structural)]
pub enum BinOp {
    Lt,
    Le,
    Gt,
    Ge,
    Eq,
    Ne,
    Other,
}

#[derive(Clone, Copy, Debug, PartialEq, Eq, Structural)]
pub enum UnOp {
    Deref,
    Not,
    Neg,
}

#[derive(Clone, Copy, Debug, PartialEq, Eq, Structural)]
pub enum BorrowKind {
    Ref,
    Raw,
}

#[derive(Clone, Copy, Debug, PartialEq, Eq, Structural)]
pub enum TyKind {
    /// A raw pointer type.
    Ptr,
    /// The placeholder `_`.
    Infer,
    Other,
}

/// A type as it was written in the source.
#[derive(Clone, Copy, Debug, PartialEq, Eq, Structural)]
pub struct Ty {
    pub kind: TyKind,
    pub span: Span,
}

/// The value of an expression that the host could evaluate at compile time.
#[derive(Clone, Copy, Debug, PartialEq, Eq, Structural)]
pub enum Constant {
    Int(u128),
    RawPtr(u128),
    Other,
}

/// What the host inferred about the type of an expression.
#[derive(Clone, Copy, Debug, PartialEq, Eq, Structural)]
pub struct TyFacts {
    /// `&str` or `String`.
    pub native_string: bool,
    /// A scalar, a string slice, or references, arrays and slices of them.
    pub simple: bool,
}

#[derive(Clone, Copy, Debug, PartialEq, Eq, Structural)]
pub enum LoopKind {
    Loop,
    While,
    For,
}

/// A pattern: its identity (that of the binding, where the pattern is a
/// single name), its range and the names it holds.
#[derive(Clone, Debug)]
pub struct Pat {
    pub id: u64,
    pub span: Span,
    pub names: Vec<String>,
}

#[derive(Debug)]
pub struct Expr {
    pub span: Span,
    pub kind: ExprKind,
    pub ty: TyFacts,
    pub value: Option<Constant>,
}

#[derive(Debug)]
pub enum ExprKind {
    Lit(Lit),
    Path(Path),
    /// Callee and arguments.
    Call(Box<Expr>, Vec<Expr>),
    /// Method name, the function it was resolved to, receiver, arguments.
    MethodCall(String, Option<u64>, Box<Expr>, Vec<Expr>),
    Binary(BinOp, Box<Expr>, Box<Expr>),
    Unary(UnOp, Box<Expr>),
    AddrOf(BorrowKind, Box<Expr>),
    Cast(Box<Expr>, Ty),
    /// Place and value.
    Assign(Box<Expr>, Box<Expr>),
    Field(Box<Expr>, String),
    If(Box<Expr>, Box<Expr>, Option<Box<Expr>>),
    Match(Box<Expr>, Vec<Arm>),
    Block(Box<Block>),
    /// Kind, label, the expressions of the head, body.
    Loop(LoopKind, Option<String>, Vec<Expr>, Box<Block>),
    /// The body of a closure.
    Closure(Box<Expr>),
    Ret(Option<Box<Expr>>),
    Break(Option<String>, Option<Box<Expr>>),
    /// Any other expression: the names it holds and its operands in
    /// source order.
    Other(Vec<String>, Vec<Expr>),
}

#[derive(Debug)]
pub struct Arm {
    pub pat: Pat,
    pub guard: Option<Expr>,
    pub body: Expr,
}

#[derive(Debug)]
pub struct Local {
    pub span: Span,
    pub pat: Pat,
    pub ty: Option<Ty>,
    pub init: Option<Expr>,
    pub els: Option<Block>,
}

#[derive(Debug)]
pub enum StmtKind {
    Local(Local),
    Expr(Expr),
    Semi(Expr),
    Item,
}

#[derive(Debug)]
pub struct Stmt {
    pub span: Span,
    pub kind: StmtKind,
}

#[derive(Debug)]
pub struct Block {
    pub id: u64,
    pub span: Span,
    pub stmts: Vec<Stmt>,
    pub expr: Option<Expr>,
}

} // verus!
