use vstd::prelude::*;

use super::builder::Builder;

verus! {

/// What a successful decoding step yields: the machine's next state when the
/// field still needs input, or the finished product.
#[derive(Debug, PartialEq)]
#[verifier::reject_recursive_types(P)]
pub enum Target<P, B: Builder<Product = P>> {
    Builder(B),
    Product(P),
}

} // verus!
