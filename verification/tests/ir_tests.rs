use tensoru::ir::{Expr, KernelBuilder, LValue, ScalarType, Type};
use tensoru::samples::{gen_simple_reduce, gen_vectoradd};

#[test]
fn simple_reduce() {
    let k = gen_simple_reduce(1024);
    println!("{:?}", k);
}

#[test]
fn simple_vectoradd() {
    let k = gen_vectoradd();
    println!("{:?}", k);
}

#[test]
fn builder_fixes_argument_order_and_regs() {
    let mut kb = KernelBuilder::new("args");
    let a = kb.add_input(Type::Scalar(ScalarType::F32));
    let b = kb.add_input(Type::Vectorized(ScalarType::U32, 8));
    let c = kb.add_output(Type::Scalar(ScalarType::I32));
    assert_eq!(0, a.reg);
    assert_eq!(1, b.reg);
    assert_eq!(2, c.reg);
    assert!(a.is_const);
    assert!(b.is_const);
    assert!(!c.is_const);
    let body = kb.new_block();
    let k = kb.finalize(body);
    assert_eq!("args", k.name.as_str());
    assert_eq!(vec![a, b, c], k.args);
    assert!(k.body.insts.is_empty());
}

#[test]
fn reg_ids_strictly_increase_across_nested_builders() {
    let mut kb = KernelBuilder::new("nested");
    let mut regs: Vec<usize> = Vec::new();
    regs.push(kb.add_input(Type::Vectorized(ScalarType::F64, 4)).reg);
    let mut body = kb.new_block();
    regs.push(
        body.define(&mut kb, Type::Scalar(ScalarType::F64), Expr::Immediate(0))
            .reg,
    );
    regs.push(kb.add_output(Type::Vectorized(ScalarType::F64, 4)).reg);
    let i = kb.new_index();
    regs.push(i.reg);
    let mut inner = kb.new_block();
    regs.push(
        inner
            .define(&mut kb, Type::Scalar(ScalarType::F64), Expr::Immediate(1))
            .reg,
    );
    let j = kb.new_index();
    regs.push(j.reg);
    let mut innermost = kb.new_block();
    regs.push(
        innermost
            .define(&mut kb, Type::Scalar(ScalarType::F64), Expr::Immediate(2))
            .reg,
    );
    innermost.affect(LValue::Reg(j), Expr::Immediate(3));
    inner.new_range(j, 0, 2, innermost);
    body.new_range(i, 0, 4, inner);

    for w in regs.windows(2) {
        assert!(w[0] < w[1], "register ids must strictly increase");
    }
    for (x, r1) in regs.iter().enumerate() {
        for (y, r2) in regs.iter().enumerate() {
            if x != y {
                assert_ne!(r1, r2, "register ids must be pairwise distinct");
            }
        }
    }
    assert_eq!(vec![0, 1, 2, 3, 4, 5, 6], regs);
}

#[test]
fn declaration_index_wraps_expression() {
    let mut kb = KernelBuilder::new("idx");
    let a = kb.add_input(Type::Vectorized(ScalarType::F32, 4));
    let e = a.index(Expr::Immediate(2));
    match e {
        Expr::Index(d, inner) => {
            assert_eq!(a, d);
            assert!(matches!(*inner, Expr::Immediate(2)));
        }
        _ => panic!("expected an indexed access"),
    }
}
