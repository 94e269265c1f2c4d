//! Whether invoking a resolved callable needs an `unsafe` scope.
use vstd::prelude::*;
use crate::ast::{Expr, ExprKind, Res, Safety};

verus! {

/// The oracle's answer for a call site.
#[derive(Clone, Copy, Debug, PartialEq, Eq, Structural)]
pub enum Verdict {
    Safe,
    Unsafe,
    /// The target could not be resolved; callers treat it as `Unsafe`.
    Unknown,
}

/// The verdict for a resolved definition with the given qualifier.
pub open spec fn verdict_of(s: Safety) -> Verdict {
    match s {
        Safety::Safe => Verdict::Safe,
        Safety::Unsafe => Verdict::Unsafe,
    }
}

/// The verdict for a call whose callee expression is `callee`.
pub open spec fn call_verdict(callee: Expr) -> Verdict {
    match callee.kind {
        ExprKind::Path(Res::Fn(s)) => verdict_of(s),
        ExprKind::Closure(_) => Verdict::Safe,
        _ => Verdict::Unknown,
    }
}

/// The verdict for a method call whose resolution found `target`.
pub open spec fn method_verdict(target: Option<Safety>) -> Verdict {
    match target {
        Some(s) => verdict_of(s),
        None => Verdict::Unknown,
    }
}

/// Whether a definition with this qualifier can be called outside `unsafe`.
pub fn is_fn_safe(sig: Safety) -> (r: bool)
    ensures
        r == (sig == Safety::Safe),
{
    match sig {
        Safety::Safe => true,
        Safety::Unsafe => false,
    }
}

/// Resolves the safety of calling `callee`: a function path by its
/// declared qualifier, a closure as safe, anything else as unknown.
pub fn resolve_call_safety(callee: &Expr) -> (r: Verdict)
    ensures
        r == call_verdict(*callee),
{
    match &callee.kind {
        ExprKind::Path(Res::Fn(s)) => if is_fn_safe(*s) {
            Verdict::Safe
        } else {
            Verdict::Unsafe
        },
        ExprKind::Closure(_) => Verdict::Safe,
        _ => Verdict::Unknown,
    }
}

/// Resolves the safety of a method call from what method resolution found.
pub fn resolve_method_safety(target: Option<Safety>) -> (r: Verdict)
    ensures
        r == method_verdict(target),
{
    match target {
        Some(s) => if is_fn_safe(s) {
            Verdict::Safe
        } else {
            Verdict::Unsafe
        },
        None => Verdict::Unknown,
    }
}

/// Whether calling `callee` is known to need no `unsafe` scope; an
/// unknown target counts as not safe.
pub fn is_call_safe(callee: &Expr) -> (r: bool)
    ensures
        r == (call_verdict(*callee) == Verdict::Safe),
{
    resolve_call_safety(callee) == Verdict::Safe
}

} // verus!
