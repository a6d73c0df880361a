//! Formulas of propositional logic and their evaluation.

use crate::propositional::atom::AtomIndex;
use crate::propositional::valuation::{bit_at, bits};
use bit_vec::BitVec;
use vstd::prelude::*;

verus! {

/// A binary connective.
#[derive(Debug, Clone, Copy, PartialEq, Eq, Structural)]
pub enum BinOp {
    /// Disjunction.
    Or,
    /// Conjunction.
    And,
    /// Material implication.
    Imp,
    /// Equivalence.
    Iff,
}

impl BinOp {
    /// The truth function of the connective.
    pub open spec fn apply(self, b1: bool, b2: bool) -> bool {
        match self {
            BinOp::Or => b1 || b2,
            BinOp::And => b1 && b2,
            BinOp::Imp => b1 ==> b2,
            BinOp::Iff => b1 == b2,
        }
    }

    /// The connective as a function on truth values: it accepts every pair
    /// and returns what [`apply`](BinOp::apply) gives for it.
    pub fn to_bool_op(&self) -> (f: impl Fn(bool, bool) -> bool)
        ensures
            forall|b1: bool, b2: bool| call_requires(f, (b1, b2)),
            forall|b1: bool, b2: bool, b: bool|
                call_ensures(f, (b1, b2), b) ==> b == self.apply(b1, b2),
    {
        let code = *self;
        move |b1: bool, b2: bool| -> (b: bool)
            ensures
                b == code.apply(b1, b2),
            {
                match code {
                    BinOp::Or => b1 || b2,
                    BinOp::And => b1 && b2,
                    BinOp::Imp => !b1 || b2,
                    BinOp::Iff => b1 == b2,
                }
            }
    }
}

/// The application of a binary connective to two formulas.
#[derive(Debug, PartialEq, Eq)]
pub struct Op<T> {
    /// The connective.
    pub code: BinOp,
    /// The left operand.
    pub left: Expr<T>,
    /// The right operand.
    pub right: Expr<T>,
}

/// A formula over atoms of type `T`. A formula owns its subformulas, so it is
/// a finite tree.
#[derive(Debug, PartialEq, Eq)]
pub enum Expr<T> {
    /// The constant true.
    Top,
    /// The constant false.
    Bot,
    /// A named proposition.
    Atom(T),
    /// The negation of a formula.
    Not(Box<Expr<T>>),
    /// Two formulas joined by a connective.
    BinOp(Box<Op<T>>),
}

/// Why a formula has no truth value under an assignment.
#[derive(Debug, Clone, Copy, PartialEq, Eq, Structural)]
pub enum EvalError {
    /// Some atom of the formula has no entry in the assignment.
    UnboundAtom,
}

impl<T> Op<T> {
    /// The connective `code` applied to `left` and `right`.
    pub fn new(code: BinOp, left: Expr<T>, right: Expr<T>) -> (op: Self)
        ensures
            op == (Op { code, left, right }),
    {
        Op { code, left, right }
    }

    /// `e` is one of the two operands.
    pub open spec fn has_operand(&self, e: Expr<T>) -> bool {
        e == self.left || e == self.right
    }

    /// Interprets both operands with `ev`, the left one first, and combines
    /// the two results with `op`.
    pub fn eval_on<S, F, G>(&self, ev: F, op: G) -> (s: S) where
        F: Fn(&Expr<T>) -> S,
        G: Fn(S, S) -> S,

        requires
            call_requires(ev, (&self.left,)),
            call_requires(ev, (&self.right,)),
            forall|l: S, r: S|
                call_ensures(ev, (&self.left,), l) && call_ensures(ev, (&self.right,), r)
                    ==> call_requires(op, (l, r)),
        ensures
            exists|l: S, r: S|
                call_ensures(ev, (&self.left,), l) && call_ensures(ev, (&self.right,), r)
                    && call_ensures(op, (l, r), s),
    {
        let l = ev(&self.left);
        let r = ev(&self.right);
        op(l, r)
    }
}

impl<T> Expr<T> {
    /// The negation of `e`.
    pub fn not(e: Expr<T>) -> (n: Self)
        ensures
            n == Expr::Not(Box::new(e)),
    {
        Expr::Not(Box::new(e))
    }

    /// `left` and `right` joined by the connective `code`.
    pub fn binary(code: BinOp, left: Expr<T>, right: Expr<T>) -> (e: Self)
        ensures
            e == Expr::BinOp(Box::new(Op { code, left, right })),
    {
        Expr::BinOp(Box::new(Op::new(code, left, right)))
    }

    /// The conjunction of `left` and `right`.
    pub fn and(left: Expr<T>, right: Expr<T>) -> (e: Self)
        ensures
            e == Expr::BinOp(Box::new(Op { code: BinOp::And, left, right })),
    {
        Expr::binary(BinOp::And, left, right)
    }

    /// The disjunction of `left` and `right`.
    pub fn or(left: Expr<T>, right: Expr<T>) -> (e: Self)
        ensures
            e == Expr::BinOp(Box::new(Op { code: BinOp::Or, left, right })),
    {
        Expr::binary(BinOp::Or, left, right)
    }
}

impl<T: Clone> Expr<T> {
    /// `self` has the shape of `src`, connective for connective, and each of
    /// its atoms is a clone of the atom at the same place in `src`.
    pub open spec fn is_clone_of(&self, src: &Expr<T>) -> bool
        decreases self,
    {
        match (self, src) {
            (Expr::Top, Expr::Top) => true,
            (Expr::Bot, Expr::Bot) => true,
            (Expr::Atom(a), Expr::Atom(b)) => cloned::<T>(*b, *a),
            (Expr::Not(e), Expr::Not(f)) => e.is_clone_of(f),
            (Expr::BinOp(op), Expr::BinOp(src_op)) => {
                &&& op.code == src_op.code
                &&& op.left.is_clone_of(&src_op.left)
                &&& op.right.is_clone_of(&src_op.right)
            },
            _ => false,
        }
    }
}

impl<T: Clone> Clone for Expr<T> {
    /// A formula of the same shape, with a clone of each atom.
    fn clone(&self) -> (res: Self)
        ensures
            res.is_clone_of(self),
        decreases self,
    {
        match self {
            Expr::Top => Expr::Top,
            Expr::Bot => Expr::Bot,
            Expr::Atom(atom) => Expr::Atom(atom.clone()),
            Expr::Not(e) => Expr::Not(Box::new((&**e).clone())),
            Expr::BinOp(op) => Expr::BinOp(
                Box::new(
                    Op { code: op.code, left: op.left.clone(), right: op.right.clone() },
                ),
            ),
        }
    }
}

impl<T: Clone> Clone for Op<T> {
    /// The same connective over clones of both operands.
    fn clone(&self) -> (res: Self)
        ensures
            res.code == self.code,
            res.left.is_clone_of(&self.left),
            res.right.is_clone_of(&self.right),
    {
        Op { code: self.code, left: self.left.clone(), right: self.right.clone() }
    }
}

impl<T: AtomIndex> Expr<T> {
    /// Every atom of the formula has an entry in the assignment `a`: its
    /// position exists and lies below the length of `a`.
    pub open spec fn bound_in(&self, a: Seq<bool>) -> bool
        decreases self,
    {
        match self {
            Expr::Top => true,
            Expr::Bot => true,
            Expr::Atom(atom) => atom.position() matches Some(i) && i < a.len(),
            Expr::Not(e) => e.bound_in(a),
            Expr::BinOp(op) => op.left.bound_in(a) && op.right.bound_in(a),
        }
    }

    /// The truth value of the formula under the assignment `a`, in which
    /// every atom of the formula has an entry.
    pub open spec fn value(&self, a: Seq<bool>) -> bool
        recommends
            self.bound_in(a),
        decreases self,
    {
        match self {
            Expr::Top => true,
            Expr::Bot => false,
            Expr::Atom(atom) => a[atom.position().unwrap() as int],
            Expr::Not(e) => !e.value(a),
            Expr::BinOp(op) => op.code.apply(op.left.value(a), op.right.value(a)),
        }
    }

    /// What evaluation under the assignment `a` yields: the truth value, or
    /// the failure when an atom anywhere in the formula has no entry.
    pub open spec fn outcome(&self, a: Seq<bool>) -> Result<bool, EvalError> {
        if self.bound_in(a) {
            Ok(self.value(a))
        } else {
            Err(EvalError::UnboundAtom)
        }
    }

    /// Whether every atom of the formula has an entry in `valuation`.
    pub fn is_bound_in(&self, valuation: &BitVec<u32>) -> (b: bool)
        ensures
            b == self.bound_in(bits(*valuation)),
        decreases self,
    {
        match self {
            Expr::Top => true,
            Expr::Bot => true,
            Expr::Atom(atom) => match atom.index() {
                Some(i) => bit_at(valuation, i).is_some(),
                None => false,
            },
            Expr::Not(e) => e.is_bound_in(valuation),
            Expr::BinOp(op) => {
                let left = op.left.is_bound_in(valuation);
                let right = op.right.is_bound_in(valuation);
                left && right
            },
        }
    }

    /// The truth value of the formula under `valuation`, which must hold an
    /// entry for every atom of the formula. Both operands of a connective are
    /// evaluated. The result is a function of the formula and of the bits of
    /// `valuation`, and neither is changed.
    pub fn eval(&self, valuation: &BitVec<u32>) -> (b: bool)
        requires
            self.bound_in(bits(*valuation)),
        ensures
            b == self.value(bits(*valuation)),
            self is Top ==> b,
            self is Bot ==> !b,
        decreases self,
    {
        match self {
            Expr::Top => true,
            Expr::Bot => false,
            Expr::Atom(atom) => {
                let i = atom.index().unwrap();
                bit_at(valuation, i).unwrap()
            },
            Expr::Not(e) => !e.eval(valuation),
            Expr::BinOp(op) => {
                let ev = |e: &Expr<T>| -> (b: bool)
                    requires
                        op.has_operand(*e),
                    ensures
                        b == e.value(bits(*valuation)),
                    { e.eval(valuation) };
                op.eval_on(ev, op.code.to_bool_op())
            },
        }
    }

    /// Evaluates the formula under `valuation`: its truth value when every
    /// atom has an entry, and `UnboundAtom` when some atom, wherever it
    /// stands in the formula, has none. The result is a function of the
    /// formula and of the bits of `valuation`, and neither is changed.
    pub fn evaluate(&self, valuation: &BitVec<u32>) -> (r: Result<bool, EvalError>)
        ensures
            r == self.outcome(bits(*valuation)),
            r is Ok <==> self.bound_in(bits(*valuation)),
            self is Top ==> r == Ok::<bool, EvalError>(true),
            self is Bot ==> r == Ok::<bool, EvalError>(false),
    {
        if self.is_bound_in(valuation) {
            Ok(self.eval(valuation))
        } else {
            Err(EvalError::UnboundAtom)
        }
    }
}

} // verus!
