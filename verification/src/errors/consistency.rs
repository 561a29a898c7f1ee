//! How `==` and `<` on the unified error belong together.

use crate::errors::common::{
    error_order_connected, error_order_irreflexive, error_order_transitive, PoseidonError,
};
use std::cmp::Ordering;
use vstd::prelude::*;
use vstd::std_specs::cmp::{PartialEqSpec, PartialOrdSpec};

verus! {

/// `==` and `<` agree: two errors are equal exactly where neither comes before
/// the other, and the three-way comparison says which of the three holds.
pub proof fn error_order_agrees_with_equality(a: PoseidonError, b: PoseidonError)
    ensures
        a.partial_cmp_spec(&b) == Some(Ordering::Equal) <==> a.eq_spec(&b),
        a.partial_cmp_spec(&b) == Some(Ordering::Less) <==> a@.precedes(b@),
        a.partial_cmp_spec(&b) == Some(Ordering::Greater) <==> b@.precedes(a@),
{
    error_order_irreflexive(a@);
    if a@ != b@ {
        error_order_connected(a@, b@);
    }
    if a@.precedes(b@) && b@.precedes(a@) {
        error_order_transitive(a@, b@, a@);
    }
}

} // verus!
