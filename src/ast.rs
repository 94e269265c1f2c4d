//! A model of the host's expression tree, as far as the analysis reads it.
use vstd::prelude::*;

verus! {

/// A source location, as the host gives it.
#[derive(Clone, Copy, Debug, PartialEq, Eq, Structural)]
pub struct Span {
    pub lo: u32,
    pub hi: u32,
}

/// The declared safety qualifier of a function or method definition.
#[derive(Clone, Copy, Debug, PartialEq, Eq, Structural)]
pub enum Safety {
    Safe,
    Unsafe,
}

/// What a path in callee position resolves to.
#[derive(Clone, Copy, Debug, PartialEq, Eq, Structural)]
pub enum Res {
    /// A function definition with its declared qualifier.
    Fn(Safety),
    /// Anything else: a local, a constant, an unresolved name.
    Other,
}

/// Who put an `unsafe` marker on a block.
#[derive(Clone, Copy, Debug, PartialEq, Eq, Structural)]
pub enum UnsafeSource {
    /// Synthesized by desugaring; never an authored safety boundary.
    CompilerGenerated,
    /// Written by the author of the code.
    UserProvided,
}

/// The scoping marker of a block.
#[derive(Clone, Copy, Debug, PartialEq, Eq, Structural)]
pub enum BlockCheckMode {
    DefaultBlock,
    UnsafeBlock(UnsafeSource),
}

/// A statement of a block; expressions inside it are visited as well.
#[derive(Debug)]
pub enum Stmt {
    /// `let` with its optional initializer.
    Let(Option<Expr>),
    /// A nested item; its body is a separate unit.
    Item,
    /// An expression without a trailing semicolon.
    Expr(Expr),
    /// An expression followed by a semicolon.
    Semi(Expr),
}

/// A block: leading statements, an optional tail expression and a marker.
#[derive(Debug)]
pub struct Block {
    pub stmts: Vec<Stmt>,
    pub expr: Option<Box<Expr>>,
    pub rules: BlockCheckMode,
    pub span: Span,
}

/// The kinds of expression that the analysis tells apart.
#[derive(Debug)]
pub enum ExprKind {
    /// `[a, b, c]`
    Array(Vec<Expr>),
    /// `{ ... }` or `unsafe { ... }`
    Block(Box<Block>),
    /// `|x| body`
    Closure(Box<Expr>),
    /// `if c { a } else { b }`
    If(Box<Expr>, Box<Expr>, Option<Box<Expr>>),
    /// `loop { ... }`
    Loop(Box<Block>),
    /// `(a, b)`
    Tup(Vec<Expr>),
    /// `callee(args)`
    Call(Box<Expr>, Vec<Expr>),
    /// `receiver.method(args)`, with the qualifier of the definition that
    /// type-dependent resolution found, if it found one.
    MethodCall(Box<Expr>, Vec<Expr>, Option<Safety>),
    /// A path, with what it resolves to.
    Path(Res),
    /// Any other kind, with its sub-expressions.
    Other(Vec<Expr>),
}

/// An expression node of the tree.
#[derive(Debug)]
pub struct Expr {
    pub kind: ExprKind,
    pub span: Span,
}

} // verus!
