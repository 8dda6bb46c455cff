use vstd::prelude::*;

use crate::text::Printable;

use super::error::Error;
use super::target::Target;

verus! {

/// The outcome of one step of a field-decoding state machine, at the level
/// of the machine's mathematical model: the machine either needs more input,
/// completes with its product, or fails naming the bytes of the symbols that
/// would have been acceptable.
pub enum Transition<M, P> {
    Next(M),
    Done(P),
    Fail(Seq<u8>),
}

/// An incremental field decoder.
///
/// A builder is an explicit state machine that consumes one printable symbol
/// at a time.  Its behaviour is fixed by a mathematical model: `model` maps
/// a state to its model, `spec_step` says what one symbol does to a model,
/// and `spec_finish` says which models are accepting when the input ends.
/// The executable `push` and `done` are proved to follow that model exactly,
/// so everything driving a builder can reason purely about the model.
pub trait Builder: Sized {
    /// The completed field value this machine produces.
    type Product;

    /// The mathematical model of a machine state.
    type StateModel;

    /// The mathematical model of a completed product.
    type ProductModel;

    /// Validity of a state: every state reachable from a starting state
    /// satisfies it, and `push` both assumes and preserves it.
    spec fn inv(&self) -> bool;

    /// The model of this state.
    spec fn model(&self) -> Self::StateModel;

    /// The model of a product.
    spec fn product_model(product: &Self::Product) -> Self::ProductModel;

    /// What one printable symbol (given as its byte) does to a state model.
    spec fn spec_step(m: Self::StateModel, symbol: u8) -> Transition<
        Self::StateModel,
        Self::ProductModel,
    >;

    /// The product a state model yields when the input ends at it, if it is
    /// accepting.
    spec fn spec_finish(m: Self::StateModel) -> Option<Self::ProductModel>;

    /// Consumes one printable symbol: a successor state, the completed
    /// product, or a failure naming the acceptable symbols — exactly as
    /// `spec_step` prescribes for this state's model.
    fn push(self, printable: Printable) -> (r: Result<Target<Self::Product, Self>, Error>)
        requires
            self.inv(),
        ensures
            match r {
                Ok(Target::Builder(b)) => b.inv() && Self::spec_step(self.model(), printable@)
                    == Transition::<Self::StateModel, Self::ProductModel>::Next(b.model()),
                Ok(Target::Product(p)) => Self::spec_step(self.model(), printable@)
                    == Transition::<Self::StateModel, Self::ProductModel>::Done(
                    Self::product_model(&p),
                ),
                Err(e) => Self::spec_step(self.model(), printable@) == Transition::<
                    Self::StateModel,
                    Self::ProductModel,
                >::Fail(e@),
            },
    ;

    /// Ends the input at this state: the product if the state is accepting,
    /// exactly as `spec_finish` prescribes for this state's model.
    fn done(self) -> (r: Option<Self::Product>)
        requires
            self.inv(),
        ensures
            match r {
                Some(p) => Self::spec_finish(self.model()) == Some(Self::product_model(&p)),
                None => Self::spec_finish(self.model()) is None,
            },
    ;
}

} // verus!
