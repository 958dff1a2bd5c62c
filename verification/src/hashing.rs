//! Hashing of addresses.

use vstd::prelude::*;

verus! {

/// `<usize as Hash>::hash` of the standard library feeds the integer to the
/// hasher. Nothing is claimed about the hasher's state afterwards.
pub assume_specification<H: std::hash::Hasher>[ <usize as std::hash::Hash>::hash ](
    value: &usize,
    state: &mut H,
);

} // verus!
