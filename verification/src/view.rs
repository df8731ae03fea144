//! Shape/stride views: immutable descriptors of a tensor's memory layout.
//!
//! A view maps a multi-dimensional logical index to a flat buffer offset
//! through a shape vector and a stride vector (strides counted in elements,
//! not bytes).  Construction, permutation, reshape legality and symbolic
//! address synthesis are pure functions; every transformation is metadata
//! only and never moves data.

use vstd::prelude::*;
use vstd::view::View as VstdView;
use vstd::slice::slice_to_vec;
use vstd::pervasive::VecAdditionalExecFns;
use vstd::string::StringExecFns;
use crate::text::{push_decimal, spec_decimal};

verus! {

/// Errors for shape-level operations, each detected synchronously at the
/// violating call and propagated to the immediate caller.
#[derive(Clone, Copy, Debug, PartialEq, Eq, Structural)]
pub enum ShapeError {
    /// The given permutation is not a bijection on the axis range.
    InvalidPermutation,
    /// Mismatched lengths between shape and strides, or between shape and
    /// index names.
    RankMismatch,
    /// A product mismatch between a shape and a data extent.
    SizeMismatch,
}

/// Product of the extents `shape[i..]`, the canonical row-major stride of
/// axis `i - 1` before the extent-1 fixup.
pub open spec fn spec_suffix_product(shape: Seq<usize>, i: int) -> int
    decreases shape.len() - i,
{
    if i < 0 || i >= shape.len() {
        1
    } else {
        shape[i] * spec_suffix_product(shape, i + 1)
    }
}

/// Product of the extents `shape[..i]`, accumulated left to right as the
/// executable size computation does.
pub open spec fn spec_prefix_product(shape: Seq<usize>, i: int) -> int
    decreases i,
{
    if i <= 0 {
        1
    } else {
        spec_prefix_product(shape, i - 1) * shape[i - 1]
    }
}

/// Number of elements a shape addresses: the product of all its extents.
pub open spec fn spec_size(shape: Seq<usize>) -> int {
    spec_prefix_product(shape, shape.len() as int)
}

/// The canonical row-major stride of axis `i`, with the extent-1 fixup:
/// an axis of extent 1 is always given stride 0.
pub open spec fn spec_canonical_stride(shape: Seq<usize>, i: int) -> int {
    if shape[i] == 1 {
        0
    } else {
        spec_suffix_product(shape, i + 1)
    }
}

/// Strides equal the canonical (fixed-up) row-major strides of `shape`:
/// the definition of contiguity.
pub open spec fn spec_matches_row_major(shape: Seq<usize>, strides: Seq<usize>) -> bool {
    &&& strides.len() == shape.len()
    &&& forall|i: int| 0 <= i < shape.len() ==> strides[i] == spec_canonical_stride(shape, i)
}

/// The extent-1 fixup applied to a stride vector: stride 0 wherever the
/// extent is 1, the given stride elsewhere.
pub open spec fn spec_fixup(shape: Seq<usize>, strides: Seq<usize>) -> Seq<usize> {
    Seq::new(strides.len(), |i: int| if shape[i] == 1 { 0usize } else { strides[i] })
}

/// Every axis of extent 1 carries stride 0.
pub open spec fn spec_unit_axes_zeroed(shape: Seq<usize>, strides: Seq<usize>) -> bool {
    forall|i: int| 0 <= i < shape.len() && shape[i] == 1 ==> strides[i] == 0
}

/// All suffix products of `shape` are machine-representable; what the
/// executable row-major stride computation needs to not overflow.
pub open spec fn spec_suffix_products_fit(shape: Seq<usize>) -> bool {
    forall|i: int| 0 <= i <= shape.len() ==> spec_suffix_product(shape, i) <= usize::MAX
}

/// All prefix products of `shape` are machine-representable; what the
/// executable size computation needs to not overflow.
pub open spec fn spec_prefix_products_fit(shape: Seq<usize>) -> bool {
    forall|i: int| 0 <= i <= shape.len() ==> spec_prefix_product(shape, i) <= usize::MAX
}

/// `p` is a bijection on `[0, n)`: right length, in range, pairwise distinct.
pub open spec fn spec_is_permutation(p: Seq<usize>, n: int) -> bool {
    &&& p.len() == n
    &&& forall|i: int| 0 <= i < p.len() ==> (p[i] as int) < n
    &&& forall|i: int, j: int|
        0 <= i < p.len() && 0 <= j < p.len() && i != j ==> p[i] != p[j]
}

/// Reorder `s` by `p`: element `i` of the result is element `p[i]` of `s`.
pub open spec fn spec_apply_perm<T>(s: Seq<T>, p: Seq<usize>) -> Seq<T> {
    Seq::new(p.len(), |i: int| s[p[i] as int])
}

/// A view with the given contiguity can be reshaped to `new_shape` without a
/// copy exactly when the target equals the current shape or the view is
/// contiguous.
pub open spec fn spec_reshape_possible(
    shape: Seq<usize>,
    contiguous: bool,
    new_shape: Seq<usize>,
) -> bool {
    new_shape == shape || contiguous
}

/// Construct the canonical row-major strides of a shape (last axis fastest),
/// before the extent-1 fixup is applied by the caller.
///
/// Kept together with [`fix_1_sized_dims_strides`] so that construction and
/// fixup can also be exercised separately.
fn raw_strides_from_shape(shape: &[usize]) -> (r: Vec<usize>)
    requires
        spec_suffix_products_fit(shape@),
    ensures
        r@.len() == shape@.len(),
        forall|i: int| 0 <= i < shape@.len() ==> r@[i] == spec_suffix_product(shape@, i + 1),
{
    let n = shape.len();
    let mut rev: Vec<usize> = Vec::new();
    let mut stride: usize = 1;
    let mut i = n;
    while i > 0
        invariant
            i <= n,
            n == shape@.len(),
            spec_suffix_products_fit(shape@),
            stride == spec_suffix_product(shape@, i as int),
            rev@.len() == n - i,
            forall|j: int| 0 <= j < rev@.len() ==> rev@[j] == spec_suffix_product(shape@, n - j),
        decreases i,
    {
        i = i - 1;
        rev.push(stride);
        let e = *vstd::slice::slice_index_get(shape, i);
        proof {
            assert(spec_suffix_product(shape@, i as int) == e * spec_suffix_product(
                shape@,
                i + 1,
            ));
            assert(e * spec_suffix_product(shape@, i + 1) == spec_suffix_product(shape@, i + 1)
                * e) by (nonlinear_arith);
        }
        stride = stride * e;
    }
    let mut strides: Vec<usize> = Vec::new();
    let mut k: usize = 0;
    while k < n
        invariant
            k <= n,
            n == shape@.len(),
            rev@.len() == n,
            forall|j: int| 0 <= j < n ==> rev@[j] == spec_suffix_product(shape@, n - j),
            strides@.len() == k,
            forall|j: int| 0 <= j < k ==> strides@[j] == spec_suffix_product(shape@, j + 1),
        decreases n - k,
    {
        strides.push(rev[n - 1 - k]);
        k = k + 1;
    }
    strides
}

/// Replace the stride of every extent-1 axis by 0, leaving other axes alone.
pub fn fix_1_sized_dims_strides(shape: &[usize], strides: Vec<usize>) -> (r: Vec<usize>)
    requires
        shape@.len() == strides@.len(),
    ensures
        r@ == spec_fixup(shape@, strides@),
{
    let mut out = strides;
    let n = shape.len();
    let mut i: usize = 0;
    while i < n
        invariant
            i <= n,
            n == shape@.len(),
            n == strides@.len(),
            out@.len() == n,
            forall|j: int| i <= j < n ==> out@[j] == strides@[j],
            forall|j: int| 0 <= j < i ==> out@[j] == spec_fixup(shape@, strides@)[j],
        decreases n - i,
    {
        if *vstd::slice::slice_index_get(shape, i) == 1 {
            out.set(i, 0);
        }
        i = i + 1;
    }
    proof {
        assert(out@ =~= spec_fixup(shape@, strides@));
    }
    out
}

/// Canonical row-major strides for a shape (last axis fastest), with the
/// extent-1 fixup applied.
pub fn strides_from_shape(shape: &[usize]) -> (r: Vec<usize>)
    requires
        spec_suffix_products_fit(shape@),
    ensures
        r@.len() == shape@.len(),
        forall|i: int| 0 <= i < shape@.len() ==> r@[i] == spec_canonical_stride(shape@, i),
{
    let raw = raw_strides_from_shape(shape);
    let fixed = fix_1_sized_dims_strides(shape, raw);
    fixed
}

/// Decide whether `strides` are exactly the canonical (fixed-up) row-major
/// strides of `shape`, without materialising them: the running suffix
/// product is tracked with an overflow flag, and an unrepresentable
/// canonical stride can never equal a stored one.
fn matches_row_major(shape: &[usize], strides: &[usize]) -> (r: bool)
    requires
        shape@.len() == strides@.len(),
    ensures
        r == spec_matches_row_major(shape@, strides@),
{
    let n = shape.len();
    let mut ok = true;
    let mut acc: usize = 1;
    let mut overflowed = false;
    let mut i = n;
    while i > 0
        invariant
            i <= n,
            n == shape@.len(),
            n == strides@.len(),
            !overflowed ==> acc == spec_suffix_product(shape@, i as int),
            overflowed ==> spec_suffix_product(shape@, i as int) > usize::MAX,
            ok == (forall|j: int|
                i <= j < n ==> strides@[j] == spec_canonical_stride(shape@, j)),
        decreases i,
    {
        i = i - 1;
        let e = *vstd::slice::slice_index_get(shape, i);
        let s = *vstd::slice::slice_index_get(strides, i);
        let here_ok = if e == 1 {
            s == 0
        } else {
            !overflowed && s == acc
        };
        proof {
            if e != 1 && overflowed {
                assert(s < spec_canonical_stride(shape@, i as int));
            }
        }
        ok = ok && here_ok;
        if e == 0 {
            acc = 0;
            overflowed = false;
            proof {
                assert(spec_suffix_product(shape@, i as int) == e * spec_suffix_product(
                    shape@,
                    i + 1,
                ));
                assert(e == 0 ==> e * spec_suffix_product(shape@, i + 1) == 0)
                    by (nonlinear_arith);
            }
        } else if overflowed {
            proof {
                assert(spec_suffix_product(shape@, i as int) == e * spec_suffix_product(
                    shape@,
                    i + 1,
                ));
                assert(e >= 1 && spec_suffix_product(shape@, i + 1) > usize::MAX
                    ==> e * spec_suffix_product(shape@, i + 1) > usize::MAX)
                    by (nonlinear_arith);
            }
        } else {
            proof {
                assert(spec_suffix_product(shape@, i as int) == e * spec_suffix_product(
                    shape@,
                    i + 1,
                ));
                assert(e * spec_suffix_product(shape@, i + 1) == spec_suffix_product(
                    shape@,
                    i + 1,
                ) * e) by (nonlinear_arith);
            }
            match acc.checked_mul(e) {
                Some(v) => {
                    acc = v;
                },
                None => {
                    overflowed = true;
                },
            }
        }
    }
    ok
}

/// An immutable shape + stride + contiguity descriptor.
///
/// Invariant ([`View::wf`]): shape and strides have equal rank, every
/// extent-1 axis carries stride 0, and the cached `contiguous` flag holds
/// exactly when the strides are the canonical row-major strides of the
/// shape.
#[derive(Clone, Debug)]
pub struct View {
    shape: Vec<usize>,
    strides: Vec<usize>,
    contiguous: bool,
}

impl View {
    /// The shape, as a mathematical sequence of extents.
    pub closed spec fn spec_shape(&self) -> Seq<usize> {
        self.shape@
    }

    /// The strides, as a mathematical sequence of element counts.
    pub closed spec fn spec_strides(&self) -> Seq<usize> {
        self.strides@
    }

    /// The cached contiguity flag.
    pub closed spec fn spec_contiguous(&self) -> bool {
        self.contiguous
    }

    /// Well-formedness: equal ranks, extent-1 axes carry stride 0, and the
    /// contiguity flag means exactly "strides are canonical row-major".
    pub open spec fn wf(&self) -> bool {
        &&& self.spec_strides().len() == self.spec_shape().len()
        &&& spec_unit_axes_zeroed(self.spec_shape(), self.spec_strides())
        &&& self.spec_contiguous() == spec_matches_row_major(
            self.spec_shape(),
            self.spec_strides(),
        )
    }

    /// Build a view from explicit shape and strides.
    ///
    /// Fails with `RankMismatch` exactly when the two lengths differ.  The
    /// stored strides are the given ones with the extent-1 fixup applied;
    /// contiguity is computed by structural comparison to the canonical
    /// row-major strides.
    pub fn new(shape: &[usize], strides: &[usize]) -> (r: Result<View, ShapeError>)
        ensures
            match r {
                Ok(v) => {
                    &&& shape@.len() == strides@.len()
                    &&& v.wf()
                    &&& v.spec_shape() == shape@
                    &&& v.spec_strides() == spec_fixup(shape@, strides@)
                },
                Err(e) => {
                    &&& e == ShapeError::RankMismatch
                    &&& shape@.len() != strides@.len()
                },
            },
    {
        if shape.len() != strides.len() {
            return Err(ShapeError::RankMismatch);
        }
        let fixed = fix_1_sized_dims_strides(shape, slice_to_vec(strides));
        let contiguous = matches_row_major(shape, fixed.as_slice());
        Ok(View { shape: slice_to_vec(shape), strides: fixed, contiguous })
    }

    /// The canonical contiguous view of a shape: row-major strides (last
    /// axis fastest) with the extent-1 fixup, marked contiguous.
    pub fn from_shape(shape: &[usize]) -> (v: View)
        requires
            spec_suffix_products_fit(shape@),
        ensures
            v.wf(),
            v.spec_shape() == shape@,
            spec_matches_row_major(shape@, v.spec_strides()),
            v.spec_contiguous(),
    {
        let strides = strides_from_shape(shape);
        proof {
            assert(spec_matches_row_major(shape@, strides@));
        }
        View { shape: slice_to_vec(shape), strides, contiguous: true }
    }

    /// The shape vector.
    pub fn shape(&self) -> (r: &[usize])
        ensures
            r@ == self.spec_shape(),
    {
        self.shape.as_slice()
    }

    /// The stride vector.
    pub fn strides(&self) -> (r: &[usize])
        ensures
            r@ == self.spec_strides(),
    {
        self.strides.as_slice()
    }

    /// Number of addressed elements: the product of the extents.
    pub fn size(&self) -> (r: usize)
        requires
            spec_prefix_products_fit(self.spec_shape()),
        ensures
            r == spec_size(self.spec_shape()),
    {
        let n = self.shape.len();
        let mut acc: usize = 1;
        let mut i: usize = 0;
        while i < n
            invariant
                i <= n,
                n == self.spec_shape().len(),
                spec_prefix_products_fit(self.spec_shape()),
                acc == spec_prefix_product(self.spec_shape(), i as int),
            decreases n - i,
        {
            let e = self.shape[i];
            proof {
                assert(spec_prefix_product(self.spec_shape(), i + 1)
                    == spec_prefix_product(self.spec_shape(), i as int) * e);
            }
            acc = acc * e;
            i = i + 1;
        }
        acc
    }

    /// The cached contiguity flag.
    pub fn is_contiguous(&self) -> (r: bool)
        ensures
            r == self.spec_contiguous(),
    {
        self.contiguous
    }

    /// The textual affine address of one element:
    /// `buffer[0 + index_0 * stride_0 + ... + index_{n-1} * stride_{n-1}]`.
    ///
    /// Fails with `RankMismatch` exactly when the number of index names
    /// differs from the rank.
    pub fn indexing_expr(&self, buffer: &str, indices: &[&str]) -> (r: Result<
        String,
        ShapeError,
    >)
        requires
            self.wf(),
        ensures
            match r {
                Ok(s) => {
                    &&& indices@.len() == self.spec_shape().len()
                    &&& s@ == spec_indexing_expr(
                        buffer@,
                        indices@.map_values(|x: &str| x@),
                        self.spec_strides(),
                    )
                },
                Err(e) => {
                    &&& e == ShapeError::RankMismatch
                    &&& indices@.len() != self.spec_shape().len()
                },
            },
    {
        if self.shape.len() != indices.len() {
            return Err(ShapeError::RankMismatch);
        }
        let ghost idx = indices@.map_values(|x: &str| x@);
        let n = indices.len();
        let mut offset = String::new();
        offset.append("0");
        proof {
            assert(offset@ =~= spec_index_terms(idx, self.spec_strides(), 0));
        }
        let mut i: usize = 0;
        while i < n
            invariant
                i <= n,
                self.wf(),
                n == self.spec_shape().len(),
                n == indices@.len(),
                idx == indices@.map_values(|x: &str| x@),
                offset@ == spec_index_terms(idx, self.spec_strides(), i as int),
            decreases n - i,
        {
            offset.append(" + ");
            offset.append(*vstd::slice::slice_index_get(indices, i));
            offset.append(" * ");
            push_decimal(&mut offset, self.strides[i] as u64);
            i = i + 1;
            proof {
                assert(offset@ =~= spec_index_terms(idx, self.spec_strides(), i as int));
            }
        }
        let mut out = buffer.to_owned();
        out.append("[");
        out.append(offset.as_str());
        out.append("]");
        proof {
            assert(out@ =~= spec_indexing_expr(buffer@, idx, self.spec_strides()));
        }
        Ok(out)
    }

    /// Reorder the axes by a bijection on `[0, rank)`: pure metadata change,
    /// no data movement.  Fails with `InvalidPermutation` exactly when
    /// `permutation` is not such a bijection.
    pub fn permute_axes(&self, permutation: &[usize]) -> (r: Result<View, ShapeError>)
        requires
            self.wf(),
        ensures
            match r {
                Ok(v) => {
                    &&& spec_is_permutation(permutation@, self.spec_shape().len() as int)
                    &&& v.wf()
                    &&& v.spec_shape() == spec_apply_perm(self.spec_shape(), permutation@)
                    &&& v.spec_strides() == spec_apply_perm(self.spec_strides(), permutation@)
                    &&& spec_unit_axes_zeroed(v.spec_shape(), v.spec_strides())
                },
                Err(e) => {
                    &&& e == ShapeError::InvalidPermutation
                    &&& !spec_is_permutation(permutation@, self.spec_shape().len() as int)
                },
            },
    {
        let n = self.shape.len();
        if !is_permutation_of(permutation, n) {
            return Err(ShapeError::InvalidPermutation);
        }
        let mut shape: Vec<usize> = Vec::new();
        let mut strides: Vec<usize> = Vec::new();
        let mut i: usize = 0;
        while i < n
            invariant
                i <= n,
                self.wf(),
                n == self.spec_shape().len(),
                spec_is_permutation(permutation@, n as int),
                shape@.len() == i,
                strides@.len() == i,
                forall|j: int| 0 <= j < i ==> shape@[j] == spec_apply_perm(
                    self.spec_shape(),
                    permutation@,
                )[j],
                forall|j: int| 0 <= j < i ==> strides@[j] == spec_apply_perm(
                    self.spec_strides(),
                    permutation@,
                )[j],
            decreases n - i,
        {
            let axis = *vstd::slice::slice_index_get(permutation, i);
            shape.push(self.shape[axis]);
            strides.push(self.strides[axis]);
            i = i + 1;
        }
        proof {
            assert(shape@ =~= spec_apply_perm(self.spec_shape(), permutation@));
            assert(strides@ =~= spec_apply_perm(self.spec_strides(), permutation@));
        }
        match View::new(shape.as_slice(), strides.as_slice()) {
            Ok(v) => {
                proof {
                    assert(v.spec_strides() =~= spec_apply_perm(
                        self.spec_strides(),
                        permutation@,
                    ));
                }
                Ok(v)
            },
            Err(_) => {
                proof {
                    assert(false);
                }
                Err(ShapeError::InvalidPermutation)
            },
        }
    }

    /// Reshape without a copy.
    ///
    /// Returns the view unchanged for the view's own shape (contiguous or
    /// not); the canonical row-major view of `new_shape` when the view is
    /// contiguous (the caller guarantees a matching size); and nothing at
    /// all otherwise — a non-contiguous view refuses every other shape, by
    /// design, so that callers can take the refusal as the signal to
    /// materialise a copy.
    pub fn reshape(&self, new_shape: &[usize]) -> (r: Option<View>)
        requires
            self.wf(),
            self.spec_contiguous() && self.spec_shape() != new_shape@ ==> {
                &&& spec_suffix_products_fit(new_shape@)
                &&& spec_size(new_shape@) == spec_size(self.spec_shape())
            },
        ensures
            r is Some <==> spec_reshape_possible(
                self.spec_shape(),
                self.spec_contiguous(),
                new_shape@,
            ),
            match r {
                Some(v) => {
                    &&& v.wf()
                    &&& if new_shape@ == self.spec_shape() {
                        &&& v.spec_shape() == self.spec_shape()
                        &&& v.spec_strides() == self.spec_strides()
                        &&& v.spec_contiguous() == self.spec_contiguous()
                    } else {
                        &&& v.spec_shape() == new_shape@
                        &&& spec_matches_row_major(new_shape@, v.spec_strides())
                        &&& v.spec_contiguous()
                    }
                },
                None => true,
            },
    {
        if usize_slices_equal(self.shape.as_slice(), new_shape) {
            return Some(
                View {
                    shape: slice_to_vec(self.shape.as_slice()),
                    strides: slice_to_vec(self.strides.as_slice()),
                    contiguous: self.contiguous,
                },
            );
        }
        if self.contiguous {
            return Some(View::from_shape(new_shape));
        }
        None
    }
}

/// Textual terms `0 + index_0 * stride_0 + ... + index_{n-1} * stride_{n-1}`.
pub open spec fn spec_index_terms(
    indices: Seq<Seq<char>>,
    strides: Seq<usize>,
    n: int,
) -> Seq<char>
    decreases n,
{
    if n <= 0 {
        "0"@
    } else {
        spec_index_terms(indices, strides, n - 1) + " + "@ + indices[n - 1] + " * "@
            + spec_decimal(strides[n - 1] as nat)
    }
}

/// The full textual affine address `buffer[<terms>]`.
pub open spec fn spec_indexing_expr(
    buffer: Seq<char>,
    indices: Seq<Seq<char>>,
    strides: Seq<usize>,
) -> Seq<char> {
    buffer + "["@ + spec_index_terms(indices, strides, indices.len() as int) + "]"@
}

/// Decide whether `p` is a bijection on `[0, n)`, by marking which targets
/// have been seen.
fn is_permutation_of(p: &[usize], n: usize) -> (r: bool)
    ensures
        r == spec_is_permutation(p@, n as int),
{
    if p.len() != n {
        return false;
    }
    let mut seen: Vec<bool> = Vec::new();
    let mut k: usize = 0;
    while k < n
        invariant
            k <= n,
            seen@.len() == k,
            forall|j: int| 0 <= j < k ==> seen@[j] == false,
        decreases n - k,
    {
        seen.push(false);
        k = k + 1;
    }
    let mut i: usize = 0;
    while i < n
        invariant
            i <= n,
            p@.len() == n,
            seen@.len() == n,
            forall|j: int| 0 <= j < i ==> (p@[j] as int) < n,
            forall|t: int|
                0 <= t < n ==> (seen@[t] == exists|j: int| 0 <= j < i && p@[j] == t),
            forall|j1: int, j2: int|
                0 <= j1 < i && 0 <= j2 < i && j1 != j2 ==> p@[j1] != p@[j2],
        decreases n - i,
    {
        let x = *vstd::slice::slice_index_get(p, i);
        if x >= n {
            proof {
                assert(!((p@[i as int] as int) < n));
            }
            return false;
        }
        if seen[x] {
            proof {
                let j = choose|j: int| 0 <= j < i && p@[j] == x as int;
                assert(p@[j] == p@[i as int] && j != i);
            }
            return false;
        }
        seen.set(x, true);
        proof {
            assert forall|t: int| 0 <= t < n implies (seen@[t] == exists|j: int|
                0 <= j < i + 1 && p@[j] == t) by {
                if t == x as int {
                    assert(p@[i as int] == t);
                } else {
                    assert(seen@[t] == old_contains(p@, t, i as int)) by {
                        assert(seen@[t] == exists|j: int| 0 <= j < i && p@[j] == t);
                    }
                }
            }
        }
        i = i + 1;
    }
    true
}

/// `t` occurs among the first `i` elements of `p`.
spec fn old_contains(p: Seq<usize>, t: int, i: int) -> bool {
    exists|j: int| 0 <= j < i && p[j] == t
}

proof fn lemma_prefix_product_zero(shape: Seq<usize>, i: int, j: int)
    requires
        0 <= j < i <= shape.len(),
        shape[j] == 0,
    ensures
        spec_prefix_product(shape, i) == 0,
    decreases i,
{
    if j < i - 1 {
        lemma_prefix_product_zero(shape, i - 1, j);
    }
}

proof fn lemma_prefix_product_at_least_one(shape: Seq<usize>, i: int)
    requires
        i <= shape.len(),
        forall|k: int| 0 <= k < shape.len() ==> shape[k] >= 1,
    ensures
        spec_prefix_product(shape, i) >= 1,
    decreases i,
{
    if i > 0 {
        lemma_prefix_product_at_least_one(shape, i - 1);
        let p = spec_prefix_product(shape, i - 1);
        assert(p >= 1 && shape[i - 1] >= 1 ==> p * shape[i - 1] >= 1) by (nonlinear_arith);
    }
}

proof fn lemma_prefix_product_monotone(shape: Seq<usize>, i: int, j: int)
    requires
        0 <= i <= j <= shape.len(),
        forall|k: int| 0 <= k < shape.len() ==> shape[k] >= 1,
    ensures
        spec_prefix_product(shape, i) <= spec_prefix_product(shape, j),
    decreases j - i,
{
    if i < j {
        lemma_prefix_product_monotone(shape, i + 1, j);
        lemma_prefix_product_at_least_one(shape, i);
        let p = spec_prefix_product(shape, i);
        assert(spec_prefix_product(shape, i + 1) == p * shape[i]);
        assert(p >= 1 && shape[i] >= 1 ==> p * shape[i] >= p) by (nonlinear_arith);
    }
}

/// The number of elements a shape addresses, or nothing when that product
/// does not fit the machine: a total, overflow-checked form of
/// [`View::size`].
pub fn checked_size(shape: &[usize]) -> (r: Option<usize>)
    ensures
        match r {
            Some(s) => s == spec_size(shape@),
            None => spec_size(shape@) > usize::MAX,
        },
{
    let n = shape.len();
    let mut i: usize = 0;
    // a zero extent makes the whole product zero, whatever the other
    // extents are
    while i < n
        invariant
            i <= n,
            n == shape@.len(),
            forall|j: int| 0 <= j < i ==> shape@[j] >= 1,
        decreases n - i,
    {
        if *vstd::slice::slice_index_get(shape, i) == 0 {
            proof {
                lemma_prefix_product_zero(shape@, n as int, i as int);
            }
            return Some(0);
        }
        i = i + 1;
    }
    // every extent is at least 1, so the running product never decreases
    let mut acc: usize = 1;
    let mut k: usize = 0;
    while k < n
        invariant
            k <= n,
            n == shape@.len(),
            forall|j: int| 0 <= j < n ==> shape@[j] >= 1,
            acc == spec_prefix_product(shape@, k as int),
        decreases n - k,
    {
        let e = *vstd::slice::slice_index_get(shape, k);
        proof {
            assert(spec_prefix_product(shape@, k + 1) == spec_prefix_product(shape@, k as int)
                * e);
        }
        match acc.checked_mul(e) {
            Some(v) => {
                acc = v;
            },
            None => {
                proof {
                    lemma_prefix_product_monotone(shape@, k + 1, n as int);
                }
                return None;
            },
        }
        k = k + 1;
    }
    Some(acc)
}

/// Check that a buffer of `len` elements can back a tensor of `shape`:
/// fails with `SizeMismatch` exactly when the product of the extents
/// differs from `len`.
pub fn check_size(shape: &[usize], len: usize) -> (r: Result<(), ShapeError>)
    ensures
        match r {
            Ok(_) => spec_size(shape@) == len,
            Err(e) => {
                &&& e == ShapeError::SizeMismatch
                &&& spec_size(shape@) != len
            },
        },
{
    match checked_size(shape) {
        Some(s) => {
            if s == len {
                Ok(())
            } else {
                Err(ShapeError::SizeMismatch)
            }
        },
        None => Err(ShapeError::SizeMismatch),
    }
}

/// Law (extent-1 fixup): after the fixup, every axis of extent 1 carries
/// stride 0, irrespective of the given strides.  [`View::new`] stores the
/// fixed-up strides, and [`View::from_shape`] and [`View::permute_axes`]
/// ensure the same property through [`View::wf`].
pub proof fn lemma_fixup_zeroes_unit_axes(shape: Seq<usize>, strides: Seq<usize>)
    requires
        strides.len() == shape.len(),
    ensures
        spec_unit_axes_zeroed(shape, spec_fixup(shape, strides)),
{
}

/// Law: a contiguous view can always be reshaped without a copy, whatever
/// the target shape; with a matching size the result is the canonical
/// contiguous view of that shape (see [`View::reshape`]'s contract).
pub proof fn lemma_reshape_contiguous_possible(shape: Seq<usize>, new_shape: Seq<usize>)
    ensures
        spec_reshape_possible(shape, true, new_shape),
{
}

/// Law: a non-contiguous view refuses every reshape to a different shape.
pub proof fn lemma_reshape_non_contiguous_impossible(shape: Seq<usize>, new_shape: Seq<usize>)
    requires
        new_shape != shape,
    ensures
        !spec_reshape_possible(shape, false, new_shape),
{
}

/// Law: reshaping a view to its own shape always succeeds, regardless of
/// contiguity; [`View::reshape`]'s contract then gives back the same
/// shape, strides and contiguity.
pub proof fn lemma_reshape_identity_possible(shape: Seq<usize>, contiguous: bool)
    ensures
        spec_reshape_possible(shape, contiguous, shape),
{
}

/// The inverse of a permutation: element `i` is the position at which `p`
/// holds `i`.
pub open spec fn spec_perm_inverse(p: Seq<usize>) -> Seq<usize> {
    Seq::new(p.len(), |i: int| choose|j: usize| (j as int) < p.len() && p[j as int] == i as usize)
}

/// The targets hit by the first `k` elements of `p`.
spec fn spec_prefix_image(p: Seq<usize>, k: int) -> Set<int> {
    Set::new(|x: int| exists|j: int| 0 <= j < k && p[j] == x)
}

/// The integers `0 <= x < n`.
spec fn spec_below(n: int) -> Set<int> {
    Set::new(|x: int| 0 <= x < n)
}

proof fn lemma_below_len(n: int)
    requires
        n >= 0,
    ensures
        spec_below(n).finite(),
        spec_below(n).len() == n,
    decreases n,
{
    broadcast use vstd::set::group_set_axioms;

    if n == 0 {
        assert(spec_below(0) =~= Set::empty());
    } else {
        lemma_below_len(n - 1);
        assert(spec_below(n) =~= spec_below(n - 1).insert(n - 1));
    }
}

proof fn lemma_prefix_image_len(p: Seq<usize>, k: int)
    requires
        0 <= k <= p.len(),
        forall|i: int, j: int|
            0 <= i < p.len() && 0 <= j < p.len() && i != j ==> p[i] != p[j],
    ensures
        spec_prefix_image(p, k).finite(),
        spec_prefix_image(p, k).len() == k,
    decreases k,
{
    broadcast use vstd::set::group_set_axioms;

    if k == 0 {
        assert(spec_prefix_image(p, 0) =~= Set::empty());
    } else {
        lemma_prefix_image_len(p, k - 1);
        assert(!spec_prefix_image(p, k - 1).contains(p[k - 1] as int));
        assert(spec_prefix_image(p, k) =~= spec_prefix_image(p, k - 1).insert(p[k - 1] as int));
    }
}

/// A bijection on `[0, n)` reaches every target below `n`.
proof fn lemma_permutation_surjective(p: Seq<usize>, v: int)
    requires
        spec_is_permutation(p, p.len() as int),
        0 <= v < p.len(),
    ensures
        exists|j: int| 0 <= j < p.len() && p[j] == v,
{
    broadcast use vstd::set::group_set_axioms;

    let n = p.len() as int;
    let img = spec_prefix_image(p, n);
    let below = spec_below(n);
    lemma_prefix_image_len(p, n);
    lemma_below_len(n);
    if !img.contains(v) {
        assert(img.subset_of(below));
        img.lemma_subset_not_in_lt(below, v);
        assert(false);
    }
}

/// Law (permutation round-trip): permuting the axes by a bijection `p` and
/// then by the inverse of `p` reproduces the original shape and strides
/// exactly.  Together with [`View::permute_axes`]'s contract, a double
/// permutation of a view gives back its shape and stride vectors unchanged.
pub proof fn lemma_permute_round_trip(shape: Seq<usize>, strides: Seq<usize>, p: Seq<usize>)
    requires
        spec_is_permutation(p, shape.len() as int),
        strides.len() == shape.len(),
        shape.len() <= usize::MAX,
    ensures
        spec_is_permutation(spec_perm_inverse(p), shape.len() as int),
        spec_apply_perm(spec_apply_perm(shape, p), spec_perm_inverse(p)) == shape,
        spec_apply_perm(spec_apply_perm(strides, p), spec_perm_inverse(p)) == strides,
{
    let n = shape.len() as int;
    let q = spec_perm_inverse(p);
    assert forall|i: int| 0 <= i < n implies (q[i] as int) < n && p[q[i] as int] == i by {
        lemma_permutation_surjective(p, i);
        let j = choose|j: int| 0 <= j < p.len() && p[j] == i;
        assert((j as usize as int) < p.len() && p[j as usize as int] == i as usize);
        assert((q[i] as int) < p.len() && p[q[i] as int] == i as usize);
    }
    assert forall|i1: int, i2: int|
        0 <= i1 < n && 0 <= i2 < n && i1 != i2 implies q[i1] != q[i2] by {
        assert(p[q[i1] as int] == i1 && p[q[i2] as int] == i2);
    }
    assert(spec_apply_perm(spec_apply_perm(shape, p), q) =~= shape);
    assert(spec_apply_perm(spec_apply_perm(strides, p), q) =~= strides);
}

/// Compare two extent vectors element by element.
fn usize_slices_equal(a: &[usize], b: &[usize]) -> (r: bool)
    ensures
        r <==> a@ == b@,
{
    if a.len() != b.len() {
        proof {
            assert(a@.len() != b@.len());
        }
        return false;
    }
    let n = a.len();
    let mut i: usize = 0;
    while i < n
        invariant
            i <= n,
            n == a@.len(),
            n == b@.len(),
            forall|j: int| 0 <= j < i ==> a@[j] == b@[j],
        decreases n - i,
    {
        if *vstd::slice::slice_index_get(a, i) != *vstd::slice::slice_index_get(b, i) {
            return false;
        }
        i = i + 1;
    }
    proof {
        assert(a@ =~= b@);
    }
    true
}

} // verus!
