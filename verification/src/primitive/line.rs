use vstd::prelude::*;

use crate::protocol::Builder;
use crate::protocol::Error;
use crate::protocol::Target;
use crate::protocol::Transition;
use vstd::string::StringSliceAdditionalSpecFns;

use crate::text::Printable;
use crate::text::printable_byte;

verus! {

/// What one symbol byte does to a capped-line machine of limit `limit`: the
/// symbol is always taken, and the field completes the instant the limit is
/// reached.
pub open spec fn line_step(limit: int, ds: Seq<u8>, c: u8) -> Transition<Seq<u8>, Seq<u8>> {
    if ds.len() + 1 == limit {
        Transition::Done(ds.push(c))
    } else {
        Transition::Next(ds.push(c))
    }
}

/// A capped line accepts the end of input at any length below its limit.
pub open spec fn line_finish(ds: Seq<u8>) -> Option<Seq<u8>> {
    Some(ds)
}

/// The printable prefix a capped-line decode of limit `limit` takes from
/// `bytes`: the first `limit` bytes (or all of them, if fewer), provided
/// every byte among them is printable.
pub open spec fn line_from_bytes(limit: int, bytes: Seq<u8>) -> Option<Seq<u8>> {
    let k = if bytes.len() < limit {
        bytes.len() as int
    } else {
        limit
    };
    if forall|i: int| 0 <= i < k ==> printable_byte(bytes[i]) {
        Some(bytes.take(k))
    } else {
        None
    }
}

/// A free-text line of at most `L` printable symbols, terminated by
/// end-of-line or by reaching `L`.
#[derive(Debug, PartialEq)]
pub struct Line<const L: usize>(pub Vec<Printable>);

impl<const L: usize> View for Line<L> {
    type V = Seq<u8>;

    open spec fn view(&self) -> Seq<u8> {
        self.0@.map_values(|p: Printable| p@)
    }
}

impl<const L: usize> Line<L> {
    /// A fresh decoding machine for a line capped at `L` symbols.
    pub fn start() -> (r: LineBuilder<L>)
        requires
            L >= 1,
        ensures
            r.inv(),
            r.model() == Seq::<u8>::empty(),
    {
        let r = LineBuilder::<L>(Vec::new());
        proof {
            assert(r.model() =~= Seq::<u8>::empty());
        }
        r
    }

    /// The line holding the first `L` bytes of `str` (or all of them, if
    /// fewer); `None` if a byte among them is not printable.
    pub fn from_str(s: &str) -> (r: Option<Line<L>>)
        requires
            L >= 1,
        ensures
            match r {
                Some(line) => line_from_bytes(L as int, s.spec_bytes()) == Some(line@),
                None => line_from_bytes(L as int, s.spec_bytes()) is None,
            },
    {
        let bytes = s.as_bytes();
        let mut v: Vec<Printable> = Vec::new();
        let mut i: usize = 0;
        while i < bytes.len() && i < L
            invariant
                bytes@ == s.spec_bytes(),
                L >= 1,
                0 <= i <= bytes@.len(),
                i <= L,
                v@.map_values(|p: Printable| p@) == bytes@.take(i as int),
                forall|j: int| 0 <= j < i ==> printable_byte(bytes@[j]),
            decreases bytes@.len() - i,
        {
            let ghost snapshot = v@;
            match Printable::from_byte(bytes[i]) {
                Some(p) => {
                    v.push(p);
                    proof {
                        assert(v@.map_values(|q: Printable| q@) =~= snapshot.map_values(
                            |q: Printable| q@,
                        ).push(p@));
                        assert(snapshot.map_values(|q: Printable| q@).push(p@) =~= bytes@.take(
                            i + 1,
                        ));
                    }
                },
                None => {
                    proof {
                        let k = if bytes@.len() < L as int {
                            bytes@.len() as int
                        } else {
                            L as int
                        };
                        assert(!(forall|j: int| 0 <= j < k ==> printable_byte(bytes@[j]))) by {
                            assert(0 <= i < k && !printable_byte(bytes@[i as int]));
                        };
                        assert(line_from_bytes(L as int, bytes@) is None);
                        assert(bytes@ == s.spec_bytes());
                    }
                    return None;
                },
            }
            i += 1;
        }
        let r = Line::<L>(v);
        proof {
            let k = if bytes@.len() < L as int {
                bytes@.len() as int
            } else {
                L as int
            };
            assert(i as int == k);
        }
        Some(r)
    }
}

/// The decoding state machine for [`Line`].
#[derive(Debug, PartialEq)]
pub struct LineBuilder<const L: usize>(pub Vec<Printable>);

impl<const L: usize> Builder for LineBuilder<L> {
    type Product = Line<L>;

    type StateModel = Seq<u8>;

    type ProductModel = Seq<u8>;

    open spec fn inv(&self) -> bool {
        self.0@.len() < L
    }

    open spec fn model(&self) -> Seq<u8> {
        self.0@.map_values(|p: Printable| p@)
    }

    open spec fn product_model(product: &Line<L>) -> Seq<u8> {
        product@
    }

    open spec fn spec_step(m: Seq<u8>, symbol: u8) -> Transition<Seq<u8>, Seq<u8>> {
        line_step(L as int, m, symbol)
    }

    open spec fn spec_finish(m: Seq<u8>) -> Option<Seq<u8>> {
        line_finish(m)
    }

    fn push(self, printable: Printable) -> (r: Result<Target<Line<L>, LineBuilder<L>>, Error>) {
        let mut v = self.0;
        let ghost pre = v@;
        v.push(printable);
        proof {
            assert(v@.map_values(|p: Printable| p@) =~= pre.map_values(|p: Printable| p@).push(
                printable@,
            ));
        }
        Ok(
            if v.len() == L {
                Target::Product(Line(v))
            } else {
                Target::Builder(LineBuilder(v))
            },
        )
    }

    fn done(self) -> (r: Option<Line<L>>) {
        Some(Line(self.0))
    }
}

} // verus!
