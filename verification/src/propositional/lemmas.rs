//! Facts about the truth value of formulas.

use crate::propositional::atom::AtomIndex;
use crate::propositional::syntax::{BinOp, EvalError, Expr, Op};
use vstd::prelude::*;

verus! {

/// The constants evaluate to themselves under every assignment, the empty
/// one included.
pub proof fn lemma_constants<T: AtomIndex>(a: Seq<bool>)
    ensures
        Expr::<T>::Top.outcome(a) == Ok::<bool, EvalError>(true),
        Expr::<T>::Bot.outcome(a) == Ok::<bool, EvalError>(false),
{
}

/// Negating a formula twice changes neither whether it evaluates nor what it
/// evaluates to.
pub proof fn lemma_double_negation<T: AtomIndex>(e: Expr<T>, a: Seq<bool>)
    ensures
        Expr::Not(Box::new(Expr::Not(Box::new(e)))).bound_in(a) == e.bound_in(a),
        Expr::Not(Box::new(Expr::Not(Box::new(e)))).value(a) == e.value(a),
        Expr::Not(Box::new(Expr::Not(Box::new(e)))).outcome(a) == e.outcome(a),
{
    let inner = Expr::Not(Box::new(e));
    assert(inner.bound_in(a) == e.bound_in(a));
    assert(inner.value(a) == !e.value(a));
}

/// A negation evaluates exactly when its operand does, to the opposite truth
/// value.
pub proof fn lemma_negation<T: AtomIndex>(e: Expr<T>, a: Seq<bool>)
    ensures
        Expr::Not(Box::new(e)).outcome(a) == (match e.outcome(a) {
            Ok(b) => Ok::<bool, EvalError>(!b),
            Err(err) => Err(err),
        }),
{
}

/// A connective evaluates exactly when both operands do, whatever the truth
/// value of either, and then to what its truth function gives for their
/// values.
pub proof fn lemma_connective<T: AtomIndex>(code: BinOp, l: Expr<T>, r: Expr<T>, a: Seq<bool>)
    ensures
        Expr::BinOp(Box::new(Op { code, left: l, right: r })).outcome(a) == (match (
            l.outcome(a),
            r.outcome(a),
        ) {
            (Ok(b1), Ok(b2)) => Ok::<bool, EvalError>(code.apply(b1, b2)),
            _ => Err(EvalError::UnboundAtom),
        }),
{
}

/// The conjunction and the disjunction of two atoms that have entries in the
/// assignment follow the truth tables of `&&` and `||`, row by row.
pub proof fn lemma_and_or_truth_tables<T: AtomIndex>(p: T, q: T, a: Seq<bool>)
    requires
        Expr::Atom(p).bound_in(a),
        Expr::Atom(q).bound_in(a),
    ensures
        ({
            let vp = a[p.position().unwrap() as int];
            let vq = a[q.position().unwrap() as int];
            let and = Expr::BinOp(
                Box::new(Op { code: BinOp::And, left: Expr::Atom(p), right: Expr::Atom(q) }),
            );
            let or = Expr::BinOp(
                Box::new(Op { code: BinOp::Or, left: Expr::Atom(p), right: Expr::Atom(q) }),
            );
            &&& (vp && vq ==> and.outcome(a) == Ok::<bool, EvalError>(true))
            &&& (vp && !vq ==> and.outcome(a) == Ok::<bool, EvalError>(false))
            &&& (!vp && vq ==> and.outcome(a) == Ok::<bool, EvalError>(false))
            &&& (!vp && !vq ==> and.outcome(a) == Ok::<bool, EvalError>(false))
            &&& (vp && vq ==> or.outcome(a) == Ok::<bool, EvalError>(true))
            &&& (vp && !vq ==> or.outcome(a) == Ok::<bool, EvalError>(true))
            &&& (!vp && vq ==> or.outcome(a) == Ok::<bool, EvalError>(true))
            &&& (!vp && !vq ==> or.outcome(a) == Ok::<bool, EvalError>(false))
        }),
{
    lemma_connective(BinOp::And, Expr::Atom(p), Expr::Atom(q), a);
    lemma_connective(BinOp::Or, Expr::Atom(p), Expr::Atom(q), a);
}

/// An atom whose position is missing, or not below the length of the
/// assignment, does not evaluate.
pub proof fn lemma_unbound_atom<T: AtomIndex>(p: T, a: Seq<bool>)
    requires
        p.position() matches Some(i) ==> i >= a.len(),
    ensures
        Expr::Atom(p).outcome(a) == Err::<bool, EvalError>(EvalError::UnboundAtom),
{
}

/// A clone of a formula evaluates as the formula does, when cloning an atom
/// keeps its position.
pub proof fn lemma_clone_outcome<T: AtomIndex>(c: Expr<T>, e: Expr<T>, a: Seq<bool>)
    requires
        c.is_clone_of(&e),
        forall|x: T, y: T| cloned::<T>(x, y) ==> y.position() == x.position(),
    ensures
        c.bound_in(a) == e.bound_in(a),
        c.value(a) == e.value(a),
        c.outcome(a) == e.outcome(a),
    decreases c,
{
    match (c, e) {
        (Expr::Not(ci), Expr::Not(ei)) => {
            lemma_clone_outcome(*ci, *ei, a);
        },
        (Expr::BinOp(c_op), Expr::BinOp(e_op)) => {
            lemma_clone_outcome(c_op.left, e_op.left, a);
            lemma_clone_outcome(c_op.right, e_op.right, a);
        },
        _ => {},
    }
}

/// Evaluation is a function of its inputs: equal formulas under assignments
/// of equal length and equal entries have the same outcome.
pub proof fn lemma_outcome_deterministic<T: AtomIndex>(
    e1: Expr<T>,
    e2: Expr<T>,
    a1: Seq<bool>,
    a2: Seq<bool>,
)
    requires
        e1 == e2,
        a1.len() == a2.len(),
        forall|i: int| 0 <= i < a1.len() ==> a1[i] == a2[i],
    ensures
        e1.outcome(a1) == e2.outcome(a2),
{
    assert(a1 =~= a2);
}

} // verus!
