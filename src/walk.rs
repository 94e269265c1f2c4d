//! The traversal: every expression node of a tree, visited in pre-order,
//! each handed to the lint pass.
use vstd::prelude::*;
use crate::ast::{Block, Expr, ExprKind, Stmt};
use crate::classify::{expr_findings, Finding, MinimalUnsafeBlock};

verus! {

broadcast use vstd::std_specs::vec::group_vec_axioms;

/// The findings of a whole tree: the node's own, then those of its
/// sub-expressions from left to right.
pub open spec fn tree_findings(e: Expr) -> Seq<Finding>
    decreases e, 0int,
{
    expr_findings(e) + match e.kind {
        ExprKind::Array(v) => list_findings(v@, v@.len() as int),
        ExprKind::Block(b) => block_tree_findings(*b),
        ExprKind::Closure(body) => tree_findings(*body),
        ExprKind::If(c, t, el) => tree_findings(*c) + tree_findings(*t) + match el {
            Some(x) => tree_findings(*x),
            None => Seq::empty(),
        },
        ExprKind::Loop(b) => block_tree_findings(*b),
        ExprKind::Tup(v) => list_findings(v@, v@.len() as int),
        ExprKind::Call(f, args) => tree_findings(*f) + list_findings(args@, args@.len() as int),
        ExprKind::MethodCall(recv, args, _) => tree_findings(*recv) + list_findings(
            args@,
            args@.len() as int,
        ),
        ExprKind::Path(_) => Seq::empty(),
        ExprKind::Other(v) => list_findings(v@, v@.len() as int),
    }
}

/// The findings of the first `n` expressions of `es`.
pub open spec fn list_findings(es: Seq<Expr>, n: int) -> Seq<Finding>
    decreases es, n,
{
    if 0 < n <= es.len() {
        list_findings(es, n - 1) + tree_findings(es[n - 1])
    } else {
        Seq::empty()
    }
}

/// The findings inside a block: its statements, then its tail.
pub open spec fn block_tree_findings(b: Block) -> Seq<Finding>
    decreases b, 0int,
{
    stmt_list_findings(b.stmts@, b.stmts@.len() as int) + match b.expr {
        Some(x) => tree_findings(*x),
        None => Seq::empty(),
    }
}

/// The findings inside one statement.
pub open spec fn stmt_findings(s: Stmt) -> Seq<Finding>
    decreases s, 0int,
{
    match s {
        Stmt::Let(Some(x)) => tree_findings(x),
        Stmt::Let(None) => Seq::empty(),
        Stmt::Item => Seq::empty(),
        Stmt::Expr(x) => tree_findings(x),
        Stmt::Semi(x) => tree_findings(x),
    }
}

/// The findings of the first `n` statements of `ss`.
pub open spec fn stmt_list_findings(ss: Seq<Stmt>, n: int) -> Seq<Finding>
    decreases ss, n,
{
    if 0 < n <= ss.len() {
        stmt_list_findings(ss, n - 1) + stmt_findings(ss[n - 1])
    } else {
        Seq::empty()
    }
}

fn walk_expr(pass: &MinimalUnsafeBlock, e: &Expr, out: &mut Vec<Finding>)
    ensures
        final(out)@ == old(out)@ + tree_findings(*e),
    decreases e, 0int,
{
    let own = pass.check_expr(e);
    let mut k: usize = 0;
    while k < own.len()
        invariant
            k <= own@.len(),
            own@ == expr_findings(*e),
            out@ == old(out)@ + own@.subrange(0, k as int),
        decreases own@.len() - k,
    {
        out.push(own[k]);
        k = k + 1;
        assert(own@.subrange(0, k as int) =~= own@.subrange(0, k - 1) + seq![own@[k - 1]]);
    }
    assert(own@.subrange(0, k as int) =~= own@);
    match &e.kind {
        ExprKind::Array(v) => walk_list(pass, v, out),
        ExprKind::Block(b) => walk_block(pass, b, out),
        ExprKind::Closure(body) => walk_expr(pass, body, out),
        ExprKind::If(c, t, el) => {
            walk_expr(pass, c, out);
            walk_expr(pass, t, out);
            if let Some(x) = el {
                walk_expr(pass, x, out);
            }
        },
        ExprKind::Loop(b) => walk_block(pass, b, out),
        ExprKind::Tup(v) => walk_list(pass, v, out),
        ExprKind::Call(f, args) => {
            walk_expr(pass, f, out);
            walk_list(pass, args, out);
        },
        ExprKind::MethodCall(recv, args, _) => {
            walk_expr(pass, recv, out);
            walk_list(pass, args, out);
        },
        ExprKind::Path(_) => {},
        ExprKind::Other(v) => walk_list(pass, v, out),
    }
    assert(out@ =~= old(out)@ + tree_findings(*e));
}

fn walk_list(pass: &MinimalUnsafeBlock, v: &Vec<Expr>, out: &mut Vec<Finding>)
    ensures
        final(out)@ == old(out)@ + list_findings(v@, v@.len() as int),
    decreases v, 1int,
{
    let mut i: usize = 0;
    while i < v.len()
        invariant
            i <= v@.len(),
            out@ == old(out)@ + list_findings(v@, i as int),
        decreases v@.len() - i,
    {
        assert(decreases_to!(v => v@[i as int]));
        walk_expr(pass, &v[i], out);
        i = i + 1;
        assert(list_findings(v@, i as int) =~= list_findings(v@, i - 1) + tree_findings(v@[i - 1]));
    }
}

fn walk_block(pass: &MinimalUnsafeBlock, b: &Block, out: &mut Vec<Finding>)
    ensures
        final(out)@ == old(out)@ + block_tree_findings(*b),
    decreases b, 1int,
{
    let ghost start = out@;
    let mut i: usize = 0;
    while i < b.stmts.len()
        invariant
            i <= b.stmts@.len(),
            out@ == start + stmt_list_findings(b.stmts@, i as int),
        decreases b.stmts@.len() - i,
    {
        assert(decreases_to!(b.stmts => b.stmts@[i as int]));
        match &b.stmts[i] {
            Stmt::Let(Some(x)) => walk_expr(pass, x, out),
            Stmt::Let(None) => {},
            Stmt::Item => {},
            Stmt::Expr(x) => walk_expr(pass, x, out),
            Stmt::Semi(x) => walk_expr(pass, x, out),
        }
        i = i + 1;
        assert(stmt_list_findings(b.stmts@, i as int) =~= stmt_list_findings(b.stmts@, i - 1)
            + stmt_findings(b.stmts@[i - 1]));
    }
    if let Some(x) = &b.expr {
        walk_expr(pass, x, out);
    }
    assert(out@ =~= start + block_tree_findings(*b));
}

impl MinimalUnsafeBlock {
    /// Visits every expression node of the tree rooted at `root` and returns
    /// the findings of all of them, node before sub-expressions.
    pub fn check_tree(&self, root: &Expr) -> (r: Vec<Finding>)
        ensures
            r@ == tree_findings(*root),
    {
        let mut out: Vec<Finding> = Vec::new();
        walk_expr(self, root, &mut out);
        assert(out@ =~= tree_findings(*root));
        out
    }
}

} // verus!
