//! The minimality classifier for user-written `unsafe` blocks.
use vstd::prelude::*;
use crate::ast::{Block, BlockCheckMode, Expr, ExprKind, Span, UnsafeSource};
use crate::oracle::{call_verdict, is_call_safe, method_verdict, resolve_method_safety, Verdict};

verus! {

/// Why an `unsafe` block is not minimal.
#[derive(Clone, Copy, Debug, PartialEq, Eq, Structural)]
pub enum Reason {
    StatementsCovered,
    CoversArray,
    CoversBlock,
    CoversClosure,
    CoversIf,
    CoversLoop,
    CoversTuple,
    CoversSafeCall,
    CoversSafeMethodCall,
}

/// One diagnostic: the block's location and the reason.
#[derive(Clone, Copy, Debug, PartialEq, Eq, Structural)]
pub struct Finding {
    pub span: Span,
    pub reason: Reason,
}

/// The text that follows "this `unsafe` block is not minimal as ".
pub open spec fn reason_tail(r: Reason) -> Seq<char> {
    match r {
        Reason::StatementsCovered => "it covers statements"@,
        Reason::CoversArray => "it covers unnecessarily an array"@,
        Reason::CoversBlock => "it covers unnecessarily a block"@,
        Reason::CoversClosure => "it covers unnecessarily a closure"@,
        Reason::CoversIf => "it covers unnecessarily an `if` block"@,
        Reason::CoversLoop => "it covers unnecessarily a `loop` block"@,
        Reason::CoversTuple => "it covers unnecessarily a tuple"@,
        Reason::CoversSafeCall => "it covers unnecessarily a safe call"@,
        Reason::CoversSafeMethodCall => "it covers unnecessarily a safe method call"@,
    }
}

/// The full message of a reason.
pub open spec fn reason_message(r: Reason) -> Seq<char> {
    "this `unsafe` block is not minimal as "@ + reason_tail(r)
}

impl Reason {
    /// The message under which the host reports this reason.
    pub fn message(&self) -> (r: String)
        ensures
            r@ == reason_message(*self),
    {
        let mut s = String::from_str("this `unsafe` block is not minimal as ");
        let tail = match self {
            Reason::StatementsCovered => "it covers statements",
            Reason::CoversArray => "it covers unnecessarily an array",
            Reason::CoversBlock => "it covers unnecessarily a block",
            Reason::CoversClosure => "it covers unnecessarily a closure",
            Reason::CoversIf => "it covers unnecessarily an `if` block",
            Reason::CoversLoop => "it covers unnecessarily a `loop` block",
            Reason::CoversTuple => "it covers unnecessarily a tuple",
            Reason::CoversSafeCall => "it covers unnecessarily a safe call",
            Reason::CoversSafeMethodCall => "it covers unnecessarily a safe method call",
        };
        s.append(tail);
        s
    }
}

/// The reason a sole tail expression makes its block non-minimal, if any.
pub open spec fn tail_reason(e: Expr) -> Option<Reason> {
    match e.kind {
        ExprKind::Array(_) => Some(Reason::CoversArray),
        ExprKind::Block(_) => Some(Reason::CoversBlock),
        ExprKind::Closure(_) => Some(Reason::CoversClosure),
        ExprKind::If(_, _, _) => Some(Reason::CoversIf),
        ExprKind::Loop(_) => Some(Reason::CoversLoop),
        ExprKind::Tup(_) => Some(Reason::CoversTuple),
        ExprKind::Call(callee, _) => if call_verdict(*callee) == Verdict::Safe {
            Some(Reason::CoversSafeCall)
        } else {
            None
        },
        ExprKind::MethodCall(_, _, target) => if method_verdict(target) == Verdict::Safe {
            Some(Reason::CoversSafeMethodCall)
        } else {
            None
        },
        _ => None,
    }
}

/// The findings for a user-written `unsafe` block: `StatementsCovered` when
/// it has leading statements; otherwise the reason of its tail, if any.
pub open spec fn block_findings(b: Block) -> Seq<Finding> {
    if b.stmts@.len() > 0 {
        seq![Finding { span: b.span, reason: Reason::StatementsCovered }]
    } else {
        match b.expr {
            Some(e) => match tail_reason(*e) {
                Some(r) => seq![Finding { span: b.span, reason: r }],
                None => Seq::empty(),
            },
            None => Seq::empty(),
        }
    }
}

/// Whether the host hands this block to the classifier.
pub open spec fn is_user_unsafe(b: Block) -> bool {
    b.rules == BlockCheckMode::UnsafeBlock(UnsafeSource::UserProvided)
}

/// The findings for one expression node: those of its block when it is a
/// user-written `unsafe` block, none otherwise.
pub open spec fn expr_findings(e: Expr) -> Seq<Finding> {
    match e.kind {
        ExprKind::Block(b) => if is_user_unsafe(*b) {
            block_findings(*b)
        } else {
            Seq::empty()
        },
        _ => Seq::empty(),
    }
}

/// Classifies the sole tail expression of a user-written `unsafe` block;
/// `None` when the block has no tail or its tail is needed as it stands.
pub fn check_user_provided_unsafe_block_expr(block: &Block) -> (r: Option<Reason>)
    ensures
        r == match block.expr {
            Some(e) => tail_reason(*e),
            None => None,
        },
{
    let expr = match &block.expr {
        Some(e) => e,
        None => return None,
    };
    match &expr.kind {
        ExprKind::Array(_) => Some(Reason::CoversArray),
        ExprKind::Block(_) => Some(Reason::CoversBlock),
        ExprKind::Closure(_) => Some(Reason::CoversClosure),
        ExprKind::If(_, _, _) => Some(Reason::CoversIf),
        ExprKind::Loop(_) => Some(Reason::CoversLoop),
        ExprKind::Tup(_) => Some(Reason::CoversTuple),
        ExprKind::Call(callee, _) => if is_call_safe(callee) {
            Some(Reason::CoversSafeCall)
        } else {
            None
        },
        ExprKind::MethodCall(_, _, target) => if resolve_method_safety(*target) == Verdict::Safe {
            Some(Reason::CoversSafeMethodCall)
        } else {
            None
        },
        ExprKind::Path(_) => None,
        ExprKind::Other(_) => None,
    }
}

/// Classifies a user-written `unsafe` block: at most one finding, at the
/// block's location.
pub fn check_user_provided_unsafe_block(block: &Block) -> (r: Vec<Finding>)
    ensures
        r@ == block_findings(*block),
{
    let mut out: Vec<Finding> = Vec::new();
    if block.stmts.len() > 0 {
        out.push(Finding { span: block.span, reason: Reason::StatementsCovered });
    } else if let Some(reason) = check_user_provided_unsafe_block_expr(block) {
        out.push(Finding { span: block.span, reason });
    }
    proof {
        assert(out@ =~= block_findings(*block));
    }
    out
}

/// The lint pass: it holds no state, so each block is classified on its own.
#[derive(Clone, Copy, Debug, PartialEq, Eq, Structural)]
pub struct MinimalUnsafeBlock;

impl MinimalUnsafeBlock {
    /// The findings for one expression node that the host visits: a block
    /// marked `unsafe` by its author is classified; a compiler-generated
    /// `unsafe` block, any other block and any other node give none.
    pub fn check_expr(&self, expr: &Expr) -> (r: Vec<Finding>)
        ensures
            r@ == expr_findings(*expr),
    {
        match &expr.kind {
            ExprKind::Block(block) => match block.rules {
                BlockCheckMode::UnsafeBlock(UnsafeSource::UserProvided) => {
                    check_user_provided_unsafe_block(block)
                },
                BlockCheckMode::UnsafeBlock(UnsafeSource::CompilerGenerated) => Vec::new(),
                BlockCheckMode::DefaultBlock => Vec::new(),
            },
            _ => Vec::new(),
        }
    }
}

} // verus!
