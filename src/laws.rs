//! Properties of the classifier and the traversal, proved over the spec
//! functions that the executable functions' contracts use.
use vstd::prelude::*;
use crate::ast::{Block, Expr, ExprKind, Res, Safety};
use crate::classify::{block_findings, expr_findings, is_user_unsafe, Finding, Reason};
use crate::oracle::{call_verdict, method_verdict, Verdict};
use crate::walk::{block_tree_findings, stmt_list_findings, tree_findings};

verus! {

/// The single finding `reason` at the block's location.
pub open spec fn only(b: Block, reason: Reason) -> Seq<Finding> {
    seq![Finding { span: b.span, reason }]
}

/// A block with leading statements gets `StatementsCovered` exactly once and
/// nothing else, whatever its tail expression is.
pub proof fn lemma_statements_covered(b: Block)
    requires
        b.stmts@.len() > 0,
    ensures
        block_findings(b) == only(b, Reason::StatementsCovered),
{
}

/// A block whose sole content is an array, a block, a closure, an `if`, a
/// `loop` or a tuple gets exactly the matching finding.
pub proof fn lemma_always_non_minimal(b: Block, e: Expr)
    requires
        b.stmts@.len() == 0,
        b.expr == Some(Box::new(e)),
    ensures
        e.kind is Array ==> block_findings(b) == only(b, Reason::CoversArray),
        e.kind is Block ==> block_findings(b) == only(b, Reason::CoversBlock),
        e.kind is Closure ==> block_findings(b) == only(b, Reason::CoversClosure),
        e.kind is If ==> block_findings(b) == only(b, Reason::CoversIf),
        e.kind is Loop ==> block_findings(b) == only(b, Reason::CoversLoop),
        e.kind is Tup ==> block_findings(b) == only(b, Reason::CoversTuple),
{
}

/// A block whose sole content is a call gets `CoversSafeCall` when the
/// target is a declared-safe function or a closure, and nothing when it is a
/// declared-unsafe function or cannot be resolved.
pub proof fn lemma_call(b: Block, e: Expr, callee: Expr, args: Vec<Expr>)
    requires
        b.stmts@.len() == 0,
        b.expr == Some(Box::new(e)),
        e.kind == ExprKind::Call(Box::new(callee), args),
    ensures
        callee.kind == ExprKind::Path(Res::Fn(Safety::Safe)) ==> block_findings(b) == only(
            b,
            Reason::CoversSafeCall,
        ),
        callee.kind is Closure ==> block_findings(b) == only(b, Reason::CoversSafeCall),
        callee.kind == ExprKind::Path(Res::Fn(Safety::Unsafe)) ==> block_findings(b) == Seq::<
            Finding,
        >::empty(),
        call_verdict(callee) == Verdict::Unknown ==> block_findings(b) == Seq::<Finding>::empty(),
{
}

/// A block whose sole content is a method call gets `CoversSafeMethodCall`
/// when the call resolves to a declared-safe method, and nothing when it
/// resolves to a declared-unsafe one or does not resolve.
pub proof fn lemma_method_call(
    b: Block,
    e: Expr,
    receiver: Expr,
    args: Vec<Expr>,
    target: Option<Safety>,
)
    requires
        b.stmts@.len() == 0,
        b.expr == Some(Box::new(e)),
        e.kind == ExprKind::MethodCall(Box::new(receiver), args, target),
    ensures
        target == Some(Safety::Safe) ==> block_findings(b) == only(b, Reason::CoversSafeMethodCall),
        target == Some(Safety::Unsafe) ==> block_findings(b) == Seq::<Finding>::empty(),
        target is None ==> block_findings(b) == Seq::<Finding>::empty(),
        method_verdict(target) != Verdict::Safe ==> block_findings(b) == Seq::<Finding>::empty(),
{
}

/// Two runs of the traversal over the same tree give the same findings:
/// the result is determined by the tree alone.
pub proof fn lemma_repeatable(e: Expr, first: Seq<Finding>, second: Seq<Finding>)
    requires
        first == tree_findings(e),
        second == tree_findings(e),
    ensures
        first == second,
{
}

/// `unsafe { unsafe { .. } }`: the outer block gets `CoversBlock` alone, and
/// the findings of the whole tree are that one followed by those of the
/// inner block's own tree.
pub proof fn lemma_nested_unsafe(outer: Expr, b: Block, inner: Expr, ib: Block)
    requires
        outer.kind == ExprKind::Block(Box::new(b)),
        is_user_unsafe(b),
        b.stmts@.len() == 0,
        b.expr == Some(Box::new(inner)),
        inner.kind == ExprKind::Block(Box::new(ib)),
        is_user_unsafe(ib),
    ensures
        expr_findings(outer) == only(b, Reason::CoversBlock),
        expr_findings(inner) == block_findings(ib),
        tree_findings(outer) == only(b, Reason::CoversBlock) + tree_findings(inner),
{
    assert(stmt_list_findings(b.stmts@, 0) == Seq::<Finding>::empty());
    assert(block_tree_findings(b) =~= tree_findings(inner));
}

} // verus!
