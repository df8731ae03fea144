//! A minimal register IR for scalar/vector loads, arithmetic, indexed
//! memory access, ranged loops, definitions and assignments, together with
//! the builders that grow a kernel incrementally.
//!
//! Every register id is handed out by one strictly increasing counter owned
//! by the [`KernelBuilder`]; nested block builders allocate through it, so
//! all ids in one kernel are globally unique ([`lemma_reg_ids_unique`]).

use vstd::prelude::*;

verus! {

/// An opaque integer naming a value-holding location in the kernel IR.
pub type RegId = usize;

/// Scalar element types, tags drawn from the device/buffer collaborator.
#[derive(Clone, Copy, Debug, PartialEq, Eq, Structural)]
pub enum ScalarType {
    F16,
    F32,
    F64,
    U32,
    I32,
}

/// A scalar, or a vector of scalars with its element count.
#[derive(Clone, Copy, Debug, PartialEq, Eq, Structural)]
pub enum Type {
    Scalar(ScalarType),
    Vectorized(ScalarType, usize),
}

/// A register together with its type and constness.  `is_const` holds for
/// kernel inputs; outputs, loop indices and temporaries are mutable.
#[derive(Clone, Copy, Debug, PartialEq, Eq, Structural)]
pub struct Declaration {
    pub reg: RegId,
    pub ty: Type,
    pub is_const: bool,
}

/// An immutable expression tree.  `Index` treats the declared register as a
/// base address offset (in element units) by the inner expression's value.
#[derive(Debug)]
pub enum Expr {
    Load(Declaration),
    Immediate(i64),
    Index(Declaration, Box<Expr>),
    Add(Box<Expr>, Box<Expr>),
    Sub(Box<Expr>, Box<Expr>),
    Mul(Box<Expr>, Box<Expr>),
    Div(Box<Expr>, Box<Expr>),
}

impl Declaration {
    /// Indexed element access off this register.
    pub fn index(&self, index: Expr) -> (e: Expr)
        ensures
            e matches Expr::Index(d, inner) && d == *self && *inner == index,
    {
        Expr::Index(*self, Box::new(index))
    }
}

/// The assignable mirror of [`Expr`].
#[derive(Debug)]
pub enum LValue {
    Reg(Declaration),
    Index(Declaration, Expr),
}

/// One IR statement: a ranged loop with half-open literal bounds and a
/// nested block, a register definition, or an assignment.
#[derive(Debug)]
pub enum Instruction {
    Range(Declaration, usize, usize, BlockBuilder),
    Define(Declaration, Expr),
    Affect(LValue, Expr),
}

/// An ordered, append-only instruction sequence; order is semantically
/// significant.
#[derive(Debug)]
pub struct BlockBuilder {
    pub insts: Vec<Instruction>,
}

/// The builder state behind [`KernelBuilder`]: kernel name, argument list,
/// and the single register counter every allocation funnels through.  The
/// ghost log records each id handed out, in allocation order.
pub struct InnerKernelBuilder {
    name: String,
    args: Vec<Declaration>,
    reg_count: usize,
    allocated: Ghost<Seq<RegId>>,
}

impl InnerKernelBuilder {
    /// Registers already handed out are below the counter, and the log is
    /// strictly increasing in allocation order.
    pub open spec fn wf(&self) -> bool {
        &&& forall|i: int|
            0 <= i < self.spec_allocated().len() ==> self.spec_allocated()[i]
                < self.spec_reg_count()
        &&& forall|i: int|
            1 <= i < self.spec_allocated().len() ==> self.spec_allocated()[i - 1]
                < #[trigger] self.spec_allocated()[i]
    }

    /// The kernel name.
    pub closed spec fn spec_name(&self) -> Seq<char> {
        self.name@
    }

    /// The argument list, in declaration order.
    pub closed spec fn spec_args(&self) -> Seq<Declaration> {
        self.args@
    }

    /// The register counter: the next id to hand out.
    pub closed spec fn spec_reg_count(&self) -> usize {
        self.reg_count
    }

    /// The log of all ids handed out, in allocation order.
    pub closed spec fn spec_allocated(&self) -> Seq<RegId> {
        self.allocated@
    }

    /// Hand out the next register id and advance the counter.
    fn new_reg(&mut self) -> (r: RegId)
        requires
            old(self).wf(),
            old(self).spec_reg_count() < usize::MAX,
        ensures
            final(self).wf(),
            r == old(self).spec_reg_count(),
            final(self).spec_reg_count() == old(self).spec_reg_count() + 1,
            final(self).spec_allocated() == old(self).spec_allocated().push(r),
            final(self).spec_name() == old(self).spec_name(),
            final(self).spec_args() == old(self).spec_args(),
    {
        let rid = self.reg_count;
        self.reg_count = self.reg_count + 1;
        proof {
            self.allocated@ = self.allocated@.push(rid);
            let before = old(self).spec_allocated();
            assert forall|i: int|
                0 <= i < self.allocated@.len() implies #[trigger] self.allocated@[i]
                < self.spec_reg_count() by {
                if i < before.len() {
                    assert(self.allocated@[i] == before[i]);
                    assert(before[i] < old(self).spec_reg_count());
                } else {
                    assert(self.allocated@[i] == rid);
                }
            }
            assert forall|i: int|
                1 <= i < self.allocated@.len() implies self.allocated@[i - 1]
                < #[trigger] self.allocated@[i] by {
                if i < before.len() {
                    assert(self.allocated@[i] == before[i]);
                    assert(self.allocated@[i - 1] == before[i - 1]);
                    assert(before[i - 1] < before[i]);
                } else {
                    assert(self.allocated@[i] == rid);
                    assert(self.allocated@[i - 1] == before[i - 1]);
                    assert(before[i - 1] < old(self).spec_reg_count());
                }
            }
        }
        rid
    }
}

/// The mutable builder of one kernel: tracks name, arguments and the shared
/// register counter; block builders allocate through it.
pub struct KernelBuilder(pub InnerKernelBuilder);

impl KernelBuilder {
    /// See [`InnerKernelBuilder::wf`].
    pub open spec fn wf(&self) -> bool {
        self.0.wf()
    }

    /// The kernel name.
    pub open spec fn spec_name(&self) -> Seq<char> {
        self.0.spec_name()
    }

    /// The argument list, in declaration order.
    pub open spec fn spec_args(&self) -> Seq<Declaration> {
        self.0.spec_args()
    }

    /// The register counter: the next id to hand out.
    pub open spec fn spec_reg_count(&self) -> usize {
        self.0.spec_reg_count()
    }

    /// The log of all ids handed out, in allocation order.
    pub open spec fn spec_allocated(&self) -> Seq<RegId> {
        self.0.spec_allocated()
    }

    /// An empty builder for a kernel of the given name.
    pub fn new(name: &str) -> (kb: KernelBuilder)
        ensures
            kb.wf(),
            kb.spec_name() == name@,
            kb.spec_args() == Seq::<Declaration>::empty(),
            kb.spec_reg_count() == 0,
            kb.spec_allocated() == Seq::<RegId>::empty(),
    {
        KernelBuilder(
            InnerKernelBuilder {
                name: name.to_owned(),
                args: Vec::new(),
                reg_count: 0,
                allocated: Ghost(Seq::empty()),
            },
        )
    }

    /// Declare a kernel input: allocate the next register id, append a
    /// constant declaration of the given type, and return it.  Call order
    /// fixes the final argument order.
    pub fn add_input(&mut self, ty: Type) -> (d: Declaration)
        requires
            old(self).wf(),
            old(self).spec_reg_count() < usize::MAX,
        ensures
            final(self).wf(),
            d == (Declaration { reg: old(self).spec_reg_count(), ty, is_const: true }),
            final(self).spec_args() == old(self).spec_args().push(d),
            final(self).spec_reg_count() == old(self).spec_reg_count() + 1,
            final(self).spec_allocated() == old(self).spec_allocated().push(d.reg),
            final(self).spec_name() == old(self).spec_name(),
    {
        let reg = self.0.new_reg();
        let d = Declaration { reg, ty, is_const: true };
        self.0.args.push(d);
        d
    }

    /// Declare a kernel output: as [`KernelBuilder::add_input`], but the
    /// declaration is mutable.
    pub fn add_output(&mut self, ty: Type) -> (d: Declaration)
        requires
            old(self).wf(),
            old(self).spec_reg_count() < usize::MAX,
        ensures
            final(self).wf(),
            d == (Declaration { reg: old(self).spec_reg_count(), ty, is_const: false }),
            final(self).spec_args() == old(self).spec_args().push(d),
            final(self).spec_reg_count() == old(self).spec_reg_count() + 1,
            final(self).spec_allocated() == old(self).spec_allocated().push(d.reg),
            final(self).spec_name() == old(self).spec_name(),
    {
        let reg = self.0.new_reg();
        let d = Declaration { reg, ty, is_const: false };
        self.0.args.push(d);
        d
    }

    /// A fresh empty block sharing this builder's register counter.
    pub fn new_block(&self) -> (b: BlockBuilder)
        ensures
            b.insts@ == Seq::<Instruction>::empty(),
    {
        BlockBuilder { insts: Vec::new() }
    }

    /// Allocate the register for a loop index: an unsigned scalar, mutable
    /// so the emitted loop can advance it.
    pub fn new_index(&mut self) -> (d: Declaration)
        requires
            old(self).wf(),
            old(self).spec_reg_count() < usize::MAX,
        ensures
            final(self).wf(),
            d == (Declaration {
                reg: old(self).spec_reg_count(),
                ty: Type::Scalar(ScalarType::U32),
                is_const: false,
            }),
            final(self).spec_args() == old(self).spec_args(),
            final(self).spec_reg_count() == old(self).spec_reg_count() + 1,
            final(self).spec_allocated() == old(self).spec_allocated().push(d.reg),
            final(self).spec_name() == old(self).spec_name(),
    {
        let reg = self.0.new_reg();
        Declaration { reg, ty: Type::Scalar(ScalarType::U32), is_const: false }
    }

    /// Consume the builder, snapshot name and arguments, and yield the
    /// immutable kernel; the builder is single-use.
    pub fn finalize(self, body: BlockBuilder) -> (k: Kernel)
        ensures
            k.name@ == self.spec_name(),
            k.args@ == self.spec_args(),
            k.body == body,
    {
        let KernelBuilder(inner) = self;
        Kernel { name: inner.name, args: inner.args, body }
    }
}

impl BlockBuilder {
    /// A fresh empty block.
    pub fn new() -> (b: BlockBuilder)
        ensures
            b.insts@ == Seq::<Instruction>::empty(),
    {
        BlockBuilder { insts: Vec::new() }
    }

    /// Allocate a new register above all existing ones, append a `Define`
    /// of it to `expr`, and return the new (mutable) declaration.
    pub fn define(&mut self, kb: &mut KernelBuilder, ty: Type, expr: Expr) -> (d: Declaration)
        requires
            old(kb).wf(),
            old(kb).spec_reg_count() < usize::MAX,
        ensures
            final(kb).wf(),
            d == (Declaration { reg: old(kb).spec_reg_count(), ty, is_const: false }),
            final(self).insts@ == old(self).insts@.push(Instruction::Define(d, expr)),
            final(kb).spec_args() == old(kb).spec_args(),
            final(kb).spec_reg_count() == old(kb).spec_reg_count() + 1,
            final(kb).spec_allocated() == old(kb).spec_allocated().push(d.reg),
            final(kb).spec_name() == old(kb).spec_name(),
    {
        let reg = kb.0.new_reg();
        let d = Declaration { reg, ty, is_const: false };
        self.insts.push(Instruction::Define(d, expr));
        d
    }

    /// Append an assignment of `expr` to `lvalue`; allocates no register.
    pub fn affect(&mut self, lvalue: LValue, expr: Expr)
        ensures
            final(self).insts@ == old(self).insts@.push(Instruction::Affect(lvalue, expr)),
    {
        self.insts.push(Instruction::Affect(lvalue, expr));
    }

    /// Append a ranged loop over `index` with literal half-open bounds and
    /// the given nested block.  The index register comes from
    /// [`KernelBuilder::new_index`] on the same builder, so it shares the
    /// kernel's unique id sequence; the caller populates `body` before
    /// appending it.
    pub fn new_range(&mut self, index: Declaration, start: usize, end: usize, body: BlockBuilder)
        ensures
            final(self).insts@ == old(self).insts@.push(
                Instruction::Range(index, start, end, body),
            ),
    {
        self.insts.push(Instruction::Range(index, start, end, body));
    }
}

/// The finalized, immutable unit of generated code: name, ordered argument
/// list (inputs then outputs, in declaration order), nested root block.
#[derive(Debug)]
pub struct Kernel {
    pub name: String,
    pub args: Vec<Declaration>,
    pub body: BlockBuilder,
}

proof fn lemma_increasing_prefix(s: Seq<RegId>, i: int, j: int)
    requires
        forall|k: int| 1 <= k < s.len() ==> s[k - 1] < #[trigger] s[k],
        0 <= i < j < s.len(),
    ensures
        s[i] < s[j],
    decreases j - i,
{
    if j > i + 1 {
        lemma_increasing_prefix(s, i, j - 1);
    }
}

/// Law (register-id uniqueness): across any sequence of builder calls,
/// however nested, the register ids a well-formed builder has handed out
/// are strictly increasing in allocation order, and so pairwise distinct
/// within one kernel.
pub proof fn lemma_reg_ids_unique(kb: KernelBuilder)
    requires
        kb.wf(),
    ensures
        forall|i: int, j: int|
            0 <= i < j < kb.spec_allocated().len() ==> kb.spec_allocated()[i]
                < kb.spec_allocated()[j],
{
    assert forall|i: int, j: int|
        0 <= i < j < kb.spec_allocated().len() implies kb.spec_allocated()[i]
        < kb.spec_allocated()[j] by {
        lemma_increasing_prefix(kb.spec_allocated(), i, j);
    }
}

} // verus!
