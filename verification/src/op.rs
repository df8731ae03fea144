//! Properties of the per-element operations a kernel lowers.

use vstd::prelude::*;

verus! {

/// Marker trait for associative operations: those whose lowering to a
/// sequential accumulation loop, as in a reduction kernel, does not depend
/// on the order of association.
pub trait Associative {

}

} // verus!
