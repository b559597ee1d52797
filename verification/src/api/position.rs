//! Position vocabulary.

use vstd::prelude::*;

verus! {

/// Which way a position points.
#[derive(Debug, Clone, Copy)]
pub enum QuantityDirection {
    Long,
    Short,
    Zero,
}

} // verus!
