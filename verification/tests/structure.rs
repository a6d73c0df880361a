use prop_logic::propositional::syntax::{BinOp, EvalError, Expr, Op};

#[test]
fn constructors_build_the_variants() {
    let p: Expr<u32> = Expr::Atom(1);
    let q: Expr<u32> = Expr::Atom(2);
    assert_eq!(Expr::Not(Box::new(p.clone())), Expr::not(p.clone()));
    assert_eq!(
        Expr::BinOp(Box::new(Op { code: BinOp::And, left: p.clone(), right: q.clone() })),
        Expr::and(p.clone(), q.clone())
    );
    assert_eq!(
        Expr::BinOp(Box::new(Op { code: BinOp::Or, left: p.clone(), right: q.clone() })),
        Expr::or(p.clone(), q.clone())
    );
    assert_eq!(
        Expr::BinOp(Box::new(Op::new(BinOp::Imp, p.clone(), q.clone()))),
        Expr::binary(BinOp::Imp, p.clone(), q.clone())
    );
    let op = Op::new(BinOp::Iff, p.clone(), q.clone());
    assert_eq!(BinOp::Iff, op.code);
    assert_eq!(p, op.left);
    assert_eq!(q, op.right);
}

#[test]
fn formulas_compare_by_shape() {
    let p: Expr<u32> = Expr::Atom(1);
    let q: Expr<u32> = Expr::Atom(2);
    assert_eq!(Expr::and(p.clone(), q.clone()), Expr::and(p.clone(), q.clone()));
    assert_ne!(Expr::and(p.clone(), q.clone()), Expr::and(q.clone(), p.clone()));
    assert_ne!(Expr::and(p.clone(), q.clone()), Expr::or(p.clone(), q.clone()));
    assert_ne!(Expr::not(Expr::not(p.clone())), p);
    assert_ne!(Expr::<u32>::Top, Expr::not(Expr::Bot));
    assert_ne!(p, q);
    assert_eq!(Expr::<u32>::Top, Expr::Top);
    assert_ne!(Expr::<u32>::Top, Expr::Bot);
}

#[test]
fn clone_has_the_same_shape_and_atoms() {
    let e: Expr<u32> = Expr::or(
        Expr::not(Expr::and(Expr::Atom(4), Expr::Top)),
        Expr::binary(BinOp::Iff, Expr::Bot, Expr::Atom(0)),
    );
    let copy = e.clone();
    assert_eq!(e, copy);
    let op = Op::new(BinOp::Imp, e.clone(), Expr::Atom(3));
    let op_copy = op.clone();
    assert_eq!(op, op_copy);
    assert_eq!(BinOp::Imp, op_copy.code);
}

#[test]
fn error_compares_and_prints() {
    assert_eq!(EvalError::UnboundAtom, EvalError::UnboundAtom);
    assert_eq!("UnboundAtom", format!("{:?}", EvalError::UnboundAtom));
}
