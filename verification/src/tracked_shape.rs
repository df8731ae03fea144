//! An append-only ordered log of shape views.
//!
//! A [`TrackedShape`] records a composed chain of layout transformations
//! without eagerly re-deriving strides: composition is list concatenation
//! only, never algebraic simplification.  All accessors delegate to the
//! chain's last view.

use vstd::prelude::*;
use vstd::view::View as VstdView;
use crate::view::{spec_prefix_products_fit, spec_size, View};

verus! {

/// A non-empty ordered sequence of [`View`]s; the series starts at the
/// first and ends at the last view.
pub struct TrackedShape {
    transformations: Vec<View>,
}

impl TrackedShape {
    /// The recorded chain of views.
    pub closed spec fn spec_views(&self) -> Seq<View> {
        self.transformations@
    }

    /// The chain's last view, which every accessor delegates to.
    pub open spec fn spec_last(&self) -> View {
        self.spec_views().last()
    }

    /// Well-formedness: at least one view, each of them well-formed.
    pub open spec fn wf(&self) -> bool {
        &&& self.spec_views().len() >= 1
        &&& forall|i: int| 0 <= i < self.spec_views().len() ==> self.spec_views()[i].wf()
    }

    /// A singleton chain.
    pub fn new(initial_view: View) -> (t: TrackedShape)
        requires
            initial_view.wf(),
        ensures
            t.wf(),
            t.spec_views() == seq![initial_view],
    {
        let mut transformations: Vec<View> = Vec::new();
        transformations.push(initial_view);
        proof {
            assert(transformations@ =~= seq![initial_view]);
        }
        TrackedShape { transformations }
    }

    /// The last transformation.  By the constructor invariant a chain always
    /// holds at least one view.
    fn last(&self) -> (r: &View)
        requires
            self.wf(),
        ensures
            *r == self.spec_last(),
    {
        &self.transformations[self.transformations.len() - 1]
    }

    /// The final shape.
    pub fn shape(&self) -> (r: &[usize])
        requires
            self.wf(),
        ensures
            r@ == self.spec_last().spec_shape(),
    {
        self.last().shape()
    }

    /// The final strides.
    pub fn strides(&self) -> (r: &[usize])
        requires
            self.wf(),
        ensures
            r@ == self.spec_last().spec_strides(),
    {
        self.last().strides()
    }

    /// The final size.
    pub fn size(&self) -> (r: usize)
        requires
            self.wf(),
            spec_prefix_products_fit(self.spec_last().spec_shape()),
        ensures
            r == spec_size(self.spec_last().spec_shape()),
    {
        self.last().size()
    }

    /// The chain tracking the composition of `self` and then `other`: list
    /// concatenation of the two view logs, never simplified.
    pub fn compose(self, other: TrackedShape) -> (t: TrackedShape)
        requires
            self.wf(),
            other.wf(),
        ensures
            t.wf(),
            t.spec_views() == self.spec_views() + other.spec_views(),
    {
        let mut transformations = self.transformations;
        let mut rest = other.transformations;
        transformations.append(&mut rest);
        TrackedShape { transformations }
    }
}

} // verus!
