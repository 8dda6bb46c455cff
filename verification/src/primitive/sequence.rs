use vstd::prelude::*;

use crate::protocol::Builder;
use crate::protocol::Error;
use crate::protocol::Target;
use crate::protocol::Transition;
use crate::text::Printable;

verus! {

/// What one symbol byte does to a fixed-arity token machine of arity
/// `arity`: the symbol is always taken, and the field completes exactly when
/// the arity is reached.
pub open spec fn sequence_step(arity: int, ds: Seq<u8>, c: u8) -> Transition<Seq<u8>, Seq<u8>> {
    if ds.len() + 1 == arity {
        Transition::Done(ds.push(c))
    } else {
        Transition::Next(ds.push(c))
    }
}

/// A fixed-arity token accepts the end of input only at exactly its arity;
/// under the machine's invariant that never happens, so a token field always
/// fails when the input ends early.
pub open spec fn sequence_finish(arity: int, ds: Seq<u8>) -> Option<Seq<u8>> {
    if ds.len() == arity {
        Some(ds)
    } else {
        None
    }
}

/// An opaque token of exactly `A` printable symbols, order-significant.
#[derive(Debug, PartialEq)]
pub struct Sequence<const A: usize>(pub Vec<Printable>);

impl<const A: usize> View for Sequence<A> {
    type V = Seq<u8>;

    open spec fn view(&self) -> Seq<u8> {
        self.0@.map_values(|p: Printable| p@)
    }
}

impl<const A: usize> Sequence<A> {
    /// A fresh decoding machine for a token of arity `A`.
    pub fn start() -> (r: SequenceBuilder<A>)
        requires
            A >= 1,
        ensures
            r.inv(),
            r.model() == Seq::<u8>::empty(),
    {
        let r = SequenceBuilder::<A>(Vec::new());
        proof {
            assert(r.model() =~= Seq::<u8>::empty());
        }
        r
    }
}

/// The decoding state machine for [`Sequence`].
#[derive(Debug, PartialEq)]
pub struct SequenceBuilder<const A: usize>(pub Vec<Printable>);

impl<const A: usize> Builder for SequenceBuilder<A> {
    type Product = Sequence<A>;

    type StateModel = Seq<u8>;

    type ProductModel = Seq<u8>;

    open spec fn inv(&self) -> bool {
        self.0@.len() < A
    }

    open spec fn model(&self) -> Seq<u8> {
        self.0@.map_values(|p: Printable| p@)
    }

    open spec fn product_model(product: &Sequence<A>) -> Seq<u8> {
        product@
    }

    open spec fn spec_step(m: Seq<u8>, symbol: u8) -> Transition<Seq<u8>, Seq<u8>> {
        sequence_step(A as int, m, symbol)
    }

    open spec fn spec_finish(m: Seq<u8>) -> Option<Seq<u8>> {
        sequence_finish(A as int, m)
    }

    fn push(self, printable: Printable) -> (r: Result<
        Target<Sequence<A>, SequenceBuilder<A>>,
        Error,
    >) {
        let mut v = self.0;
        let ghost pre = v@;
        v.push(printable);
        proof {
            assert(v@.map_values(|p: Printable| p@) =~= pre.map_values(|p: Printable| p@).push(
                printable@,
            ));
        }
        Ok(
            if v.len() == A {
                Target::Product(Sequence(v))
            } else {
                Target::Builder(SequenceBuilder(v))
            },
        )
    }

    fn done(self) -> (r: Option<Sequence<A>>) {
        if self.0.len() == A {
            Some(Sequence(self.0))
        } else {
            None
        }
    }
}

} // verus!
