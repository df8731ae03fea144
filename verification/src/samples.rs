//! Sample kernel generators: small complete uses of the builder API whose
//! exact IR is pinned down by their contracts.

use vstd::prelude::*;
use crate::ir::{Declaration, Expr, Instruction, Kernel, KernelBuilder, LValue, RegId,
    ScalarType, Type};

verus! {

/// A vector-argument declaration of `n` half-precision elements.
pub open spec fn spec_vec_decl(reg: RegId, n: usize, is_const: bool) -> Declaration {
    Declaration { reg, ty: Type::Vectorized(ScalarType::F16, n), is_const }
}

/// A mutable half-precision scalar declaration.
pub open spec fn spec_scalar_decl(reg: RegId) -> Declaration {
    Declaration { reg, ty: Type::Scalar(ScalarType::F16), is_const: false }
}

/// A loop-index declaration: mutable unsigned scalar.
pub open spec fn spec_index_decl(reg: RegId) -> Declaration {
    Declaration { reg, ty: Type::Scalar(ScalarType::U32), is_const: false }
}

/// `inst` defines `d` as the element of `arr` at the index register `i`.
pub open spec fn spec_is_define_elem(
    inst: Instruction,
    d: Declaration,
    arr: Declaration,
    i: Declaration,
) -> bool {
    inst matches Instruction::Define(dd, e) && dd == d && (e matches Expr::Index(a, inner)
        && a == arr && *inner == Expr::Load(i))
}

/// `inst` defines `d` as the sum of the registers `x` and `y`.
pub open spec fn spec_is_define_add(
    inst: Instruction,
    d: Declaration,
    x: Declaration,
    y: Declaration,
) -> bool {
    inst matches Instruction::Define(dd, e) && dd == d && (e matches Expr::Add(a, b) && *a
        == Expr::Load(x) && *b == Expr::Load(y))
}

/// `inst` adds the register `y` into the register `acc`.
pub open spec fn spec_is_accumulate(inst: Instruction, acc: Declaration, y: Declaration) -> bool {
    inst matches Instruction::Affect(lv, e) && lv == LValue::Reg(acc) && (e matches Expr::Add(
        a,
        b,
    ) && *a == Expr::Load(acc) && *b == Expr::Load(y))
}

/// `inst` stores the register `src` into the element of `arr` at the index
/// register `i`.
pub open spec fn spec_is_store_elem(
    inst: Instruction,
    arr: Declaration,
    i: Declaration,
    src: Declaration,
) -> bool {
    inst matches Instruction::Affect(lv, e) && (lv matches LValue::Index(a, inner) && a == arr
        && inner == Expr::Load(i)) && e == Expr::Load(src)
}

/// `inst` stores the register `src` into element 0 of `arr`.
pub open spec fn spec_is_store_first(inst: Instruction, arr: Declaration, src: Declaration) -> bool {
    inst matches Instruction::Affect(lv, e) && lv == LValue::Index(arr, Expr::Immediate(0))
        && e == Expr::Load(src)
}

/// A summation kernel: one length-`n` vector input, one length-1 vector
/// output, an accumulator initialised to zero, a loop adding every element
/// into it, and a final store of the accumulator into the output.
pub fn gen_simple_reduce(n: usize) -> (k: Kernel)
    ensures
        k.name@ == "reduce"@,
        k.args@ == seq![spec_vec_decl(0, n, true), spec_vec_decl(1, 1, false)],
        k.body.insts@.len() == 3,
        k.body.insts@[0] == Instruction::Define(spec_scalar_decl(2), Expr::Immediate(0)),
        k.body.insts@[1] matches Instruction::Range(i, start, end, lb) && {
            &&& i == spec_index_decl(3)
            &&& start == 0usize
            &&& end == n
            &&& lb.insts@.len() == 2
            &&& spec_is_define_elem(lb.insts@[0], spec_scalar_decl(4), spec_vec_decl(0, n, true), i)
            &&& spec_is_accumulate(lb.insts@[1], spec_scalar_decl(2), spec_scalar_decl(4))
        },
        spec_is_store_first(k.body.insts@[2], spec_vec_decl(1, 1, false), spec_scalar_decl(2)),
{
    let mut kb = KernelBuilder::new("reduce");
    let a = kb.add_input(Type::Vectorized(ScalarType::F16, n));
    let o = kb.add_output(Type::Vectorized(ScalarType::F16, 1));

    let mut body = kb.new_block();
    let acc = body.define(&mut kb, Type::Scalar(ScalarType::F16), Expr::Immediate(0));
    let i = kb.new_index();
    let mut lb = kb.new_block();
    let v = lb.define(&mut kb, Type::Scalar(ScalarType::F16), a.index(Expr::Load(i)));
    lb.affect(
        LValue::Reg(acc),
        Expr::Add(Box::new(Expr::Load(acc)), Box::new(Expr::Load(v))),
    );
    body.new_range(i, 0, n, lb);
    body.affect(LValue::Index(o, Expr::Immediate(0)), Expr::Load(acc));

    kb.finalize(body)
}

/// An element-wise addition kernel over two length-1024 vector inputs and
/// one length-1024 vector output: one loop that loads both inputs at the
/// loop index, adds them, and stores the sum at the same index.
pub fn gen_vectoradd() -> (k: Kernel)
    ensures
        k.name@ == "vectoradd"@,
        k.args@ == seq![
            spec_vec_decl(0, 1024, true),
            spec_vec_decl(1, 1024, true),
            spec_vec_decl(2, 1024, false),
        ],
        k.body.insts@.len() == 1,
        k.body.insts@[0] matches Instruction::Range(i, start, end, lb) && {
            &&& i == spec_index_decl(3)
            &&& start == 0usize
            &&& end == 1024usize
            &&& lb.insts@.len() == 4
            &&& spec_is_define_elem(
                lb.insts@[0],
                spec_scalar_decl(4),
                spec_vec_decl(0, 1024, true),
                i,
            )
            &&& spec_is_define_elem(
                lb.insts@[1],
                spec_scalar_decl(5),
                spec_vec_decl(1, 1024, true),
                i,
            )
            &&& spec_is_define_add(lb.insts@[2], spec_scalar_decl(6), spec_scalar_decl(4),
                spec_scalar_decl(5))
            &&& spec_is_store_elem(lb.insts@[3], spec_vec_decl(2, 1024, false), i,
                spec_scalar_decl(6))
        },
{
    let mut kb = KernelBuilder::new("vectoradd");
    let a = kb.add_input(Type::Vectorized(ScalarType::F16, 1024));
    let b = kb.add_input(Type::Vectorized(ScalarType::F16, 1024));
    let c = kb.add_output(Type::Vectorized(ScalarType::F16, 1024));

    let mut body = kb.new_block();

    let i = kb.new_index();
    let mut rblock = kb.new_block();
    let va = rblock.define(&mut kb, Type::Scalar(ScalarType::F16), a.index(Expr::Load(i)));
    let vb = rblock.define(&mut kb, Type::Scalar(ScalarType::F16), b.index(Expr::Load(i)));
    let vc = rblock.define(
        &mut kb,
        Type::Scalar(ScalarType::F16),
        Expr::Add(Box::new(Expr::Load(va)), Box::new(Expr::Load(vb))),
    );
    rblock.affect(LValue::Index(c, Expr::Load(i)), Expr::Load(vc));
    body.new_range(i, 0, 1024, rblock);

    kb.finalize(body)
}

} // verus!
