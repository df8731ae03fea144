use tensoru::ir::{Expr, KernelBuilder, LValue, ScalarType, Type};
use tensoru::render::CRender;
use tensoru::samples::{gen_simple_reduce, gen_vectoradd};

#[test]
fn render_empty_kernel() {
    let kb = KernelBuilder::new("empty");
    let body = kb.new_block();
    let k = kb.finalize(body);
    println!("{}", CRender::render(&k));
}

#[test]
fn render_empty_body_kernel() {
    let mut kb = KernelBuilder::new("empty");
    kb.add_input(Type::Vectorized(ScalarType::F16, 1024));
    let body = kb.new_block();
    let k = kb.finalize(body);
    println!("{}", CRender::render(&k));
}

#[test]
fn render_vectoradd() {
    let mut kb = KernelBuilder::new("vectoradd");
    let a = kb.add_input(Type::Vectorized(ScalarType::F16, 1024));
    let b = kb.add_input(Type::Vectorized(ScalarType::F16, 1024));
    let c = kb.add_output(Type::Vectorized(ScalarType::F16, 1024));

    let mut body = kb.new_block();

    let i = kb.new_index();
    let mut rblock = kb.new_block();
    let va = rblock.define(&mut kb, Type::Scalar(ScalarType::F16), a.index(Expr::Load(i)));
    let vb = rblock.define(&mut kb, Type::Scalar(ScalarType::F16), b.index(Expr::Load(i)));
    let vc = rblock.define(
        &mut kb,
        Type::Scalar(ScalarType::F16),
        Expr::Add(Box::new(Expr::Load(va)), Box::new(Expr::Load(vb))),
    );
    rblock.affect(LValue::Index(c, Expr::Load(i)), Expr::Load(vc));
    body.new_range(i, 0, 1024, rblock);

    let k = kb.finalize(body);
    println!("{}", CRender::render(&k));
}

#[test]
fn render_c_render_reduce() {
    let k = gen_simple_reduce(1024);
    println!("{}", CRender::render(&k))
}

#[test]
fn empty_kernel_exact_text() {
    let kb = KernelBuilder::new("empty");
    let body = kb.new_block();
    let k = kb.finalize(body);
    assert_eq!("void empty() {\n}\n", CRender::render(&k).as_str());
}

#[test]
fn empty_body_kernel_exact_text() {
    let mut kb = KernelBuilder::new("empty");
    kb.add_input(Type::Vectorized(ScalarType::F16, 1024));
    let body = kb.new_block();
    let k = kb.finalize(body);
    assert_eq!("void empty(const *half r0) {\n}\n", CRender::render(&k).as_str());
}

#[test]
fn vectoradd_exact_text() {
    let k = gen_vectoradd();
    let expected = "void vectoradd(const *half r0, const *half r1, *half r2) {\n\tfor (unsigned int r3 = 0; r3 < 1024; r3++) {\n\t\thalf r4 = *(r0 + r3);\n\t\thalf r5 = *(r1 + r3);\n\t\thalf r6 = (r4 + r5);\n\t\t*(r2 + r3) = r6;\n\t}\n}\n";
    assert_eq!(expected, CRender::render(&k).as_str());
}

#[test]
fn reduce_exact_text() {
    let k = gen_simple_reduce(16);
    let expected = "void reduce(const *half r0, *half r1) {\n\thalf r2 = 0;\n\tfor (unsigned int r3 = 0; r3 < 16; r3++) {\n\t\thalf r4 = *(r0 + r3);\n\t\tr2 = (r2 + r4);\n\t}\n\t*(r1 + 0) = r2;\n}\n";
    assert_eq!(expected, CRender::render(&k).as_str());
}

#[test]
fn copy_kernel_reuses_loop_index_register() {
    let mut kb = KernelBuilder::new("copy");
    let input = kb.add_input(Type::Vectorized(ScalarType::F16, 1024));
    let output = kb.add_output(Type::Vectorized(ScalarType::F16, 1024));
    let mut body = kb.new_block();
    let i = kb.new_index();
    let mut lb = kb.new_block();
    lb.affect(LValue::Index(output, Expr::Load(i)), input.index(Expr::Load(i)));
    body.new_range(i, 0, 1024, lb);
    let k = kb.finalize(body);
    let expected = "void copy(const *half r0, *half r1) {\n\tfor (unsigned int r2 = 0; r2 < 1024; r2++) {\n\t\t*(r1 + r2) = *(r0 + r2);\n\t}\n}\n";
    // the load and the store both go through the loop-index register r2
    assert_eq!(expected, CRender::render(&k).as_str());
}

#[test]
fn render_is_deterministic() {
    let k = gen_vectoradd();
    let first = CRender::render(&k);
    let second = CRender::render(&k);
    assert_eq!(first, second);
}

#[test]
fn immediates_render_with_sign() {
    let mut kb = KernelBuilder::new("imm");
    let out = kb.add_output(Type::Scalar(ScalarType::I32));
    let mut body = kb.new_block();
    body.affect(
        LValue::Reg(out),
        Expr::Sub(Box::new(Expr::Immediate(-7)), Box::new(Expr::Immediate(1024))),
    );
    let k = kb.finalize(body);
    assert_eq!("void imm(int r0) {\n\tr0 = (-7 - 1024);\n}\n", CRender::render(&k).as_str());
}

#[test]
fn nested_ranges_indent_once_per_level() {
    let mut kb = KernelBuilder::new("nest");
    let out = kb.add_output(Type::Vectorized(ScalarType::F32, 4));
    let mut body = kb.new_block();
    let i = kb.new_index();
    let mut inner = kb.new_block();
    let j = kb.new_index();
    let mut innermost = kb.new_block();
    innermost.affect(LValue::Index(out, Expr::Load(j)), Expr::Immediate(1));
    inner.new_range(j, 0, 2, innermost);
    body.new_range(i, 0, 4, inner);
    let k = kb.finalize(body);
    let expected = "void nest(*float r0) {\n\tfor (unsigned int r1 = 0; r1 < 4; r1++) {\n\t\tfor (unsigned int r2 = 0; r2 < 2; r2++) {\n\t\t\t*(r0 + r2) = 1;\n\t\t}\n\t}\n}\n";
    assert_eq!(expected, CRender::render(&k).as_str());
}
