use prop_logic::propositional::syntax::{BinOp, Expr, Op};

#[test]
fn or_as_a_function() {
    let f = BinOp::Or.to_bool_op();
    assert_eq!(true, f(true, true));
    assert_eq!(true, f(true, false));
    assert_eq!(true, f(false, true));
    assert_eq!(false, f(false, false));
}

#[test]
fn and_as_a_function() {
    let f = BinOp::And.to_bool_op();
    assert_eq!(true, f(true, true));
    assert_eq!(false, f(true, false));
    assert_eq!(false, f(false, true));
    assert_eq!(false, f(false, false));
}

#[test]
fn imp_as_a_function() {
    let f = BinOp::Imp.to_bool_op();
    assert_eq!(true, f(true, true));
    assert_eq!(false, f(true, false));
    assert_eq!(true, f(false, true));
    assert_eq!(true, f(false, false));
}

#[test]
fn iff_as_a_function() {
    let f = BinOp::Iff.to_bool_op();
    assert_eq!(true, f(true, true));
    assert_eq!(false, f(true, false));
    assert_eq!(false, f(false, true));
    assert_eq!(true, f(false, false));
}

#[test]
fn connectives_compare_by_variant() {
    assert_eq!(BinOp::And, BinOp::And);
    assert_ne!(BinOp::And, BinOp::Or);
    assert_ne!(BinOp::Imp, BinOp::Iff);
    let copy = BinOp::Imp;
    assert_eq!(BinOp::Imp, copy.clone());
}

fn describe(e: &Expr<u32>) -> String {
    match e {
        Expr::Top => String::from("T"),
        Expr::Bot => String::from("F"),
        Expr::Atom(n) => format!("x{}", n),
        Expr::Not(inner) => format!("!{}", describe(inner)),
        Expr::BinOp(op) => op.eval_on(describe, |l, r| format!("({} . {})", l, r)),
    }
}

#[test]
fn eval_on_hands_left_then_right_to_the_operation() {
    let op = Op::new(BinOp::And, Expr::Atom(7u32), Expr::not(Expr::Atom(9u32)));
    let joined = op.eval_on(describe, |l: String, r: String| format!("{}&{}", l, r));
    assert_eq!("x7&!x9", joined);
    let swapped = Op::new(BinOp::And, Expr::not(Expr::Atom(9u32)), Expr::Atom(7u32));
    let joined = swapped.eval_on(describe, |l: String, r: String| format!("{}&{}", l, r));
    assert_eq!("!x9&x7", joined);
}

#[test]
fn eval_on_ignores_the_connective_of_the_node() {
    let op = Op::new(BinOp::Or, Expr::<u32>::Top, Expr::<u32>::Bot);
    let truth = |e: &Expr<u32>| matches!(e, Expr::Top);
    assert_eq!(false, op.eval_on(truth, BinOp::And.to_bool_op()));
    assert_eq!(true, op.eval_on(truth, BinOp::Or.to_bool_op()));
    assert_eq!(false, op.eval_on(truth, BinOp::Imp.to_bool_op()));
    assert_eq!(false, op.eval_on(truth, BinOp::Iff.to_bool_op()));
}

#[test]
fn eval_on_with_numbers() {
    fn atoms(e: &Expr<u32>) -> usize {
        match e {
            Expr::Top => 0,
            Expr::Bot => 0,
            Expr::Atom(_) => 1,
            Expr::Not(inner) => atoms(inner),
            Expr::BinOp(op) => op.eval_on(atoms, |l, r| l + r),
        }
    }
    let e = Expr::or(
        Expr::and(Expr::Atom(1u32), Expr::not(Expr::Atom(2u32))),
        Expr::binary(BinOp::Iff, Expr::Top, Expr::Atom(1u32)),
    );
    assert_eq!(3, atoms(&e));
    assert_eq!("((x1 . !x2) . (T . x1))", describe(&e));
}
