//! Pure, stateless lowering of a finalized [`Kernel`] to literal C-like
//! source text.
//!
//! The rendering is deterministic and purely structural: the spec functions
//! below define the text of every construct, and the executable renderer is
//! proved to produce exactly that text, so rendering one kernel twice yields
//! byte-identical output ([`lemma_render_deterministic`]).

use vstd::prelude::*;
use vstd::string::StringExecFns;
use crate::ir::{BlockBuilder, Declaration, Expr, Instruction, Kernel, LValue, RegId, ScalarType,
    Type};
use crate::text::{push_decimal, spec_decimal};

verus! {

/// The target scalar keyword for a scalar tag.
pub open spec fn spec_scalar_ctype(sty: ScalarType) -> Seq<char> {
    match sty {
        ScalarType::F16 => "half"@,
        ScalarType::F32 => "float"@,
        ScalarType::F64 => "double"@,
        ScalarType::U32 => "unsigned int"@,
        ScalarType::I32 => "int"@,
    }
}

/// The target type text: the scalar keyword, or a pointer to it for a
/// vector.
pub open spec fn spec_ctype(ty: Type) -> Seq<char> {
    match ty {
        Type::Scalar(sty) => spec_scalar_ctype(sty),
        Type::Vectorized(sty, _size) => "*"@ + spec_scalar_ctype(sty),
    }
}

/// The deterministic register name `r<id>`.
pub open spec fn spec_register(rid: RegId) -> Seq<char> {
    "r"@ + spec_decimal(rid as nat)
}

/// The literal text of a signed immediate.
pub open spec fn spec_immediate(v: i64) -> Seq<char> {
    if v < 0 {
        "-"@ + spec_decimal((-(v as int)) as nat)
    } else {
        spec_decimal(v as nat)
    }
}

/// The fully parenthesised text of an expression.
pub open spec fn spec_render_expr(e: Expr) -> Seq<char>
    decreases e,
{
    match e {
        Expr::Load(d) => spec_register(d.reg),
        Expr::Immediate(v) => spec_immediate(v),
        Expr::Index(d, inner) => "*("@ + spec_register(d.reg) + " + "@ + spec_render_expr(
            *inner,
        ) + ")"@,
        Expr::Add(a, b) => "("@ + spec_render_expr(*a) + " + "@ + spec_render_expr(*b) + ")"@,
        Expr::Sub(a, b) => "("@ + spec_render_expr(*a) + " - "@ + spec_render_expr(*b) + ")"@,
        Expr::Mul(a, b) => "("@ + spec_render_expr(*a) + " * "@ + spec_render_expr(*b) + ")"@,
        Expr::Div(a, b) => "("@ + spec_render_expr(*a) + " / "@ + spec_render_expr(*b) + ")"@,
    }
}

/// The text of an assignment target.
pub open spec fn spec_render_lvalue(lv: LValue) -> Seq<char> {
    match lv {
        LValue::Reg(d) => spec_register(d.reg),
        LValue::Index(d, index) => "*("@ + spec_register(d.reg) + " + "@ + spec_render_expr(
            index,
        ) + ")"@,
    }
}

/// The text of a declaration: `[const] <ctype> <register>`.
pub open spec fn spec_render_decl(d: Declaration) -> Seq<char> {
    if d.is_const {
        "const "@ + spec_ctype(d.ty) + " "@ + spec_register(d.reg)
    } else {
        spec_ctype(d.ty) + " "@ + spec_register(d.reg)
    }
}

/// The first `n` argument declarations joined by `", "`.
pub open spec fn spec_render_args(args: Seq<Declaration>, n: int) -> Seq<char>
    decreases n,
{
    if n <= 0 {
        Seq::<char>::empty()
    } else if n == 1 {
        spec_render_decl(args[0])
    } else {
        spec_render_args(args, n - 1) + ", "@ + spec_render_decl(args[n - 1])
    }
}

/// `n` tab characters.
pub open spec fn spec_tabs(n: nat) -> Seq<char>
    decreases n,
{
    if n == 0 {
        Seq::<char>::empty()
    } else {
        spec_tabs((n - 1) as nat) + "\t"@
    }
}

/// The text of one instruction rendered at indentation level `ind` (the
/// leading indentation itself is emitted by the enclosing block).
pub open spec fn spec_render_inst(ind: nat, inst: Instruction) -> Seq<char>
    decreases inst, 0int,
{
    match inst {
        Instruction::Range(d, start, end, body) => "for ("@ + spec_render_decl(d) + " = "@
            + spec_decimal(start as nat) + "; "@ + spec_register(d.reg) + " < "@ + spec_decimal(
            end as nat,
        ) + "; "@ + spec_register(d.reg) + "++) "@ + spec_render_block(ind, body),
        Instruction::Define(d, e) => spec_render_decl(d) + " = "@ + spec_render_expr(e) + ";\n"@,
        Instruction::Affect(lv, e) => spec_render_lvalue(lv) + " = "@ + spec_render_expr(e)
            + ";\n"@,
    }
}

/// The first `n` instructions of a block's body, each preceded by its
/// indentation.
pub open spec fn spec_render_body(ind: nat, insts: Vec<Instruction>, n: int) -> Seq<char>
    decreases insts, n,
{
    if n <= 0 || n > insts.len() {
        Seq::<char>::empty()
    } else {
        spec_render_body(ind, insts, n - 1) + spec_tabs(ind) + spec_render_inst(
            ind,
            insts[n - 1],
        )
    }
}

/// The text of a block rendered at indentation level `ind`: braces on their
/// own lines, the body one level deeper.
pub open spec fn spec_render_block(ind: nat, b: BlockBuilder) -> Seq<char>
    decreases b, 0int,
{
    "{\n"@ + spec_render_body(ind + 1, b.insts, b.insts.len() as int) + spec_tabs(ind) + "}\n"@
}

/// The kernel signature `void <name>(<args>) `.
pub open spec fn spec_render_signature(k: Kernel) -> Seq<char> {
    "void "@ + k.name@ + "("@ + spec_render_args(k.args@, k.args@.len() as int) + ") "@
}

/// The whole rendered kernel: signature followed by the root block at
/// indentation level 0.
pub open spec fn spec_render_kernel(k: Kernel) -> Seq<char> {
    spec_render_signature(k) + spec_render_block(0, k.body)
}

/// Loop-nesting depth of an instruction: how many indentation increments
/// rendering it can perform.
pub open spec fn spec_inst_depth(inst: Instruction) -> nat
    decreases inst, 0int,
{
    match inst {
        Instruction::Range(_d, _start, _end, body) => spec_block_depth(body),
        Instruction::Define(_d, _e) => 0,
        Instruction::Affect(_lv, _e) => 0,
    }
}

/// Loop-nesting depth of the first `n` instructions of a body.
pub open spec fn spec_body_depth(insts: Vec<Instruction>, n: int) -> nat
    decreases insts, n,
{
    if n <= 0 || n > insts.len() {
        0
    } else if spec_body_depth(insts, n - 1) >= spec_inst_depth(insts[n - 1]) {
        spec_body_depth(insts, n - 1)
    } else {
        spec_inst_depth(insts[n - 1])
    }
}

/// Loop-nesting depth of a block, counting the block's own indentation
/// increment.
pub open spec fn spec_block_depth(b: BlockBuilder) -> nat
    decreases b, 0int,
{
    1 + spec_body_depth(b.insts, b.insts.len() as int)
}

proof fn lemma_body_depth_bound(insts: Vec<Instruction>, n: int, i: int)
    requires
        0 <= i < n <= insts.len(),
    ensures
        spec_inst_depth(insts[i]) <= spec_body_depth(insts, n),
    decreases n,
{
    if i < n - 1 {
        lemma_body_depth_bound(insts, n - 1, i);
    }
}

/// The target scalar keyword for a scalar tag.
pub fn scalar_type_to_ctype(sty: ScalarType) -> (r: &'static str)
    ensures
        r@ == spec_scalar_ctype(sty),
{
    match sty {
        ScalarType::F16 => "half",
        ScalarType::F32 => "float",
        ScalarType::F64 => "double",
        ScalarType::U32 => "unsigned int",
        ScalarType::I32 => "int",
    }
}

/// The target type text: the scalar keyword, or a pointer to it for a
/// vector.
pub fn type_to_ctype(ty: Type) -> (r: String)
    ensures
        r@ == spec_ctype(ty),
{
    match ty {
        Type::Scalar(sty) => scalar_type_to_ctype(sty).to_owned(),
        Type::Vectorized(sty, _size) => {
            let mut s = String::new();
            s.append("*");
            s.append(scalar_type_to_ctype(sty));
            s
        },
    }
}

/// The stateless renderer of finalized kernels to C-like text; `src` is the
/// text produced so far and `ident` the current indentation level.
pub struct CRender {
    src: String,
    ident: usize,
}

impl CRender {
    /// An empty renderer at indentation level 0.
    fn new() -> (r: CRender)
        ensures
            r.src@ == Seq::<char>::empty(),
            r.ident == 0,
    {
        CRender { src: String::new(), ident: 0 }
    }

    /// The deterministic register name `r<id>`.
    fn render_register(rid: RegId) -> (r: String)
        ensures
            r@ == spec_register(rid),
    {
        let mut s = String::new();
        s.append("r");
        push_decimal(&mut s, rid as u64);
        proof {
            assert(s@ =~= spec_register(rid));
        }
        s
    }

    /// The literal text of a signed immediate.
    fn render_immediate(v: i64) -> (r: String)
        ensures
            r@ == spec_immediate(v),
    {
        if v >= 0 {
            let mut s = String::new();
            push_decimal(&mut s, v as u64);
            proof {
                assert(s@ =~= spec_immediate(v));
            }
            s
        } else {
            let magnitude: u64 = ((-(v + 1)) as u64) + 1;
            let mut s = String::new();
            s.append("-");
            push_decimal(&mut s, magnitude);
            proof {
                assert(magnitude == (-(v as int)) as nat);
                assert(s@ =~= spec_immediate(v));
            }
            s
        }
    }

    /// `( <a> <op> <b> )` for an already-rendered binary expression.
    fn join_binary(a: String, op: &str, b: String) -> (r: String)
        ensures
            r@ == "("@ + a@ + op@ + b@ + ")"@,
    {
        let mut s = String::new();
        s.append("(");
        s.append(a.as_str());
        s.append(op);
        s.append(b.as_str());
        s.append(")");
        proof {
            assert(s@ =~= "("@ + a@ + op@ + b@ + ")"@);
        }
        s
    }

    /// `*(<register> + <index>)` for indexed access off a register.
    fn join_indexed(d: &Declaration, index: String) -> (r: String)
        ensures
            r@ == "*("@ + spec_register(d.reg) + " + "@ + index@ + ")"@,
    {
        let mut s = String::new();
        s.append("*(");
        let reg = Self::render_register(d.reg);
        s.append(reg.as_str());
        s.append(" + ");
        s.append(index.as_str());
        s.append(")");
        proof {
            assert(s@ =~= "*("@ + spec_register(d.reg) + " + "@ + index@ + ")"@);
        }
        s
    }

    /// The fully parenthesised text of an expression.
    fn render_expr(expr: &Expr) -> (r: String)
        ensures
            r@ == spec_render_expr(*expr),
        decreases expr,
    {
        match expr {
            Expr::Load(d) => Self::render_register(d.reg),
            Expr::Immediate(v) => Self::render_immediate(*v),
            Expr::Index(d, inner) => Self::join_indexed(d, Self::render_expr(inner)),
            Expr::Add(a, b) => Self::join_binary(
                Self::render_expr(a),
                " + ",
                Self::render_expr(b),
            ),
            Expr::Sub(a, b) => Self::join_binary(
                Self::render_expr(a),
                " - ",
                Self::render_expr(b),
            ),
            Expr::Mul(a, b) => Self::join_binary(
                Self::render_expr(a),
                " * ",
                Self::render_expr(b),
            ),
            Expr::Div(a, b) => Self::join_binary(
                Self::render_expr(a),
                " / ",
                Self::render_expr(b),
            ),
        }
    }

    /// The text of an assignment target.
    fn render_lvalue(lv: &LValue) -> (r: String)
        ensures
            r@ == spec_render_lvalue(*lv),
    {
        match lv {
            LValue::Reg(d) => Self::render_register(d.reg),
            LValue::Index(d, index) => Self::join_indexed(d, Self::render_expr(index)),
        }
    }

    /// The text of a declaration: `[const] <ctype> <register>`.
    fn render_decl(decl: &Declaration) -> (r: String)
        ensures
            r@ == spec_render_decl(*decl),
    {
        let mut s = String::new();
        if decl.is_const {
            s.append("const ");
        }
        let t = type_to_ctype(decl.ty);
        s.append(t.as_str());
        s.append(" ");
        let reg = Self::render_register(decl.reg);
        s.append(reg.as_str());
        proof {
            assert(s@ =~= spec_render_decl(*decl));
        }
        s
    }

    /// Append the comma-joined argument declarations.
    fn append_rendered_args(&mut self, args: &Vec<Declaration>)
        ensures
            final(self).src@ == old(self).src@ + spec_render_args(args@, args@.len() as int),
            final(self).ident == old(self).ident,
    {
        let ghost base = self.src@;
        let n = args.len();
        let mut i: usize = 0;
        while i < n
            invariant
                i <= n,
                n == args@.len(),
                self.ident == old(self).ident,
                self.src@ == base + spec_render_args(args@, i as int),
            decreases n - i,
        {
            if i > 0 {
                self.src.append(", ");
            }
            let d = Self::render_decl(&args[i]);
            self.src.append(d.as_str());
            i = i + 1;
            proof {
                assert(self.src@ =~= base + spec_render_args(args@, i as int));
            }
        }
    }

    /// Append the kernel signature `void <name>(<args>) `.
    fn append_rendered_signature(&mut self, kernel: &Kernel)
        ensures
            final(self).src@ == old(self).src@ + spec_render_signature(*kernel),
            final(self).ident == old(self).ident,
    {
        self.src.append("void ");
        self.src.append(kernel.name.as_str());
        self.src.append("(");
        self.append_rendered_args(&kernel.args);
        self.src.append(") ");
        proof {
            assert(self.src@ =~= old(self).src@ + spec_render_signature(*kernel));
        }
    }

    /// Append one tab per indentation level.
    fn append_rendered_indent(&mut self)
        ensures
            final(self).src@ == old(self).src@ + spec_tabs(old(self).ident as nat),
            final(self).ident == old(self).ident,
    {
        let ghost base = self.src@;
        let n = self.ident;
        let mut i: usize = 0;
        while i < n
            invariant
                i <= n,
                self.ident == n,
                n == old(self).ident,
                self.src@ == base + spec_tabs(i as nat),
            decreases n - i,
        {
            self.src.append("\t");
            i = i + 1;
            proof {
                assert(self.src@ =~= base + spec_tabs(i as nat));
            }
        }
    }

    /// Append the text of one instruction at the current indentation level.
    fn append_rendered_instruction(&mut self, instruction: &Instruction)
        requires
            old(self).ident + spec_inst_depth(*instruction) <= usize::MAX,
        ensures
            final(self).src@ == old(self).src@ + spec_render_inst(
                old(self).ident as nat,
                *instruction,
            ),
            final(self).ident == old(self).ident,
        decreases instruction,
    {
        match instruction {
            Instruction::Range(decl, start, end, block) => {
                self.src.append("for (");
                let d = Self::render_decl(decl);
                self.src.append(d.as_str());
                self.src.append(" = ");
                push_decimal(&mut self.src, *start as u64);
                self.src.append("; ");
                let reg = Self::render_register(decl.reg);
                self.src.append(reg.as_str());
                self.src.append(" < ");
                push_decimal(&mut self.src, *end as u64);
                self.src.append("; ");
                self.src.append(reg.as_str());
                self.src.append("++) ");
                self.append_rendered_block(block);
                proof {
                    assert(self.src@ =~= old(self).src@ + spec_render_inst(
                        old(self).ident as nat,
                        *instruction,
                    ));
                }
            },
            Instruction::Define(decl, expr) => {
                let d = Self::render_decl(decl);
                self.src.append(d.as_str());
                self.src.append(" = ");
                let e = Self::render_expr(expr);
                self.src.append(e.as_str());
                self.src.append(";\n");
                proof {
                    assert(self.src@ =~= old(self).src@ + spec_render_inst(
                        old(self).ident as nat,
                        *instruction,
                    ));
                }
            },
            Instruction::Affect(lv, expr) => {
                let l = Self::render_lvalue(lv);
                self.src.append(l.as_str());
                self.src.append(" = ");
                let e = Self::render_expr(expr);
                self.src.append(e.as_str());
                self.src.append(";\n");
                proof {
                    assert(self.src@ =~= old(self).src@ + spec_render_inst(
                        old(self).ident as nat,
                        *instruction,
                    ));
                }
            },
        }
    }

    /// Append the text of a block: `{`, the indented body, the matching `}`.
    fn append_rendered_block(&mut self, block: &BlockBuilder)
        requires
            old(self).ident + spec_block_depth(*block) <= usize::MAX,
        ensures
            final(self).src@ == old(self).src@ + spec_render_block(
                old(self).ident as nat,
                *block,
            ),
            final(self).ident == old(self).ident,
        decreases block,
    {
        self.src.append("{\n");
        self.ident = self.ident + 1;
        let ghost base = self.src@;
        let n = block.insts.len();
        let mut i: usize = 0;
        while i < n
            invariant
                i <= n,
                n == block.insts@.len(),
                self.ident == old(self).ident + 1,
                self.ident + spec_body_depth(block.insts, n as int) <= usize::MAX,
                self.src@ == base + spec_render_body(self.ident as nat, block.insts, i as int),
            decreases n - i,
        {
            proof {
                lemma_body_depth_bound(block.insts, n as int, i as int);
            }
            self.append_rendered_indent();
            self.append_rendered_instruction(&block.insts[i]);
            i = i + 1;
            proof {
                assert(self.src@ =~= base + spec_render_body(
                    self.ident as nat,
                    block.insts,
                    i as int,
                ));
            }
        }
        self.ident = self.ident - 1;
        self.append_rendered_indent();
        self.src.append("}\n");
        proof {
            assert(self.src@ =~= old(self).src@ + spec_render_block(
                old(self).ident as nat,
                *block,
            ));
        }
    }

    /// Render a finalized kernel to its full C-like text: signature, then
    /// the root block.  Never mutates its input; the result is exactly
    /// [`spec_render_kernel`] of the kernel, so repeated rendering is
    /// idempotent.
    pub fn render(kernel: &Kernel) -> (r: String)
        requires
            spec_block_depth(kernel.body) <= usize::MAX,
        ensures
            r@ == spec_render_kernel(*kernel),
    {
        let mut render = CRender::new();
        render.append_rendered_signature(kernel);
        render.append_rendered_block(&kernel.body);
        proof {
            assert(render.src@ =~= spec_render_kernel(*kernel));
        }
        let CRender { src, ident: _ } = render;
        src
    }
}

/// Law (render determinism): the rendered text is a function of the kernel
/// alone, so rendering one finalized kernel twice yields byte-identical
/// text.  [`CRender::render`] returns exactly [`spec_render_kernel`] of its
/// input, which this law ties together.
pub proof fn lemma_render_deterministic(k: Kernel, s1: Seq<char>, s2: Seq<char>)
    requires
        s1 == spec_render_kernel(k),
        s2 == spec_render_kernel(k),
    ensures
        s1 == s2,
{
}

} // verus!
