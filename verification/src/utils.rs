//! Small shared helpers.

use vstd::prelude::*;
use crate::view::{spec_prefix_product, spec_prefix_products_fit, spec_size};

verus! {

/// The product of a vector of extents.
pub trait Prod {
    /// The mathematical product of the extents.
    spec fn spec_prod(&self) -> int;

    /// The product is machine-representable at every step of the
    /// left-to-right accumulation.
    spec fn spec_prod_fits(&self) -> bool;

    /// The product of the extents.
    fn prod(&self) -> (r: usize)
        requires
            self.spec_prod_fits(),
        ensures
            r == self.spec_prod(),
    ;
}

impl Prod for Vec<usize> {
    open spec fn spec_prod(&self) -> int {
        spec_size(self@)
    }

    open spec fn spec_prod_fits(&self) -> bool {
        spec_prefix_products_fit(self@)
    }

    fn prod(&self) -> (r: usize) {
        let n = self.len();
        let mut acc: usize = 1;
        let mut i: usize = 0;
        while i < n
            invariant
                i <= n,
                n == self@.len(),
                spec_prefix_products_fit(self@),
                acc == spec_prefix_product(self@, i as int),
            decreases n - i,
        {
            let e = self[i];
            proof {
                assert(spec_prefix_product(self@, i + 1) == spec_prefix_product(self@, i as int)
                    * e);
            }
            acc = acc * e;
            i = i + 1;
        }
        acc
    }
}

} // verus!
