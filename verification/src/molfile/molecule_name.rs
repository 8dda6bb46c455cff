use vstd::prelude::*;

use vstd::string::StringSliceAdditionalSpecFns;

use crate::primitive::line_from_bytes;
use crate::primitive::line_step;
use crate::protocol::Builder;
use crate::protocol::Error;
use crate::protocol::Target;
use crate::protocol::Transition;
use crate::text::Printable;
use crate::text::printable_byte;

verus! {

/// The number of columns a molecule-name line may occupy.
pub open spec fn molecule_name_limit() -> int {
    80
}

/// The name line of the header: a free-text line of at most 80 printable
/// symbols.
#[derive(Debug, PartialEq)]
pub struct MoleculeName(Vec<Printable>);

impl View for MoleculeName {
    type V = Seq<u8>;

    closed spec fn view(&self) -> Seq<u8> {
        self.0@.map_values(|p: Printable| p@)
    }
}

impl MoleculeName {
    /// A fresh decoding machine for the name line.
    pub fn start() -> (r: MoleculeNameBuilder)
        ensures
            r.inv(),
            r.model() == Seq::<u8>::empty(),
    {
        let r = MoleculeNameBuilder(Vec::new());
        proof {
            assert(r.model() =~= Seq::<u8>::empty());
        }
        r
    }

    /// The name holding the first 80 bytes of `s` (or all of them, if
    /// fewer); `None` if a byte among them is not printable.
    pub fn from_str(s: &str) -> (r: Option<MoleculeName>)
        ensures
            match r {
                Some(name) => line_from_bytes(molecule_name_limit(), s.spec_bytes()) == Some(
                    name@,
                ),
                None => line_from_bytes(molecule_name_limit(), s.spec_bytes()) is None,
            },
    {
        let bytes = s.as_bytes();
        let mut v: Vec<Printable> = Vec::new();
        let mut i: usize = 0;
        while i < bytes.len() && i < 80
            invariant
                bytes@ == s.spec_bytes(),
                0 <= i <= bytes@.len(),
                i <= 80,
                v@.map_values(|p: Printable| p@) == bytes@.take(i as int),
                forall|j: int| 0 <= j < i ==> printable_byte(bytes@[j]),
            decreases bytes@.len() - i,
        {
            let ghost snapshot = v@;
            match Printable::from_byte(bytes[i]) {
                Some(p) => {
                    v.push(p);
                    proof {
                        assert(v@.map_values(|q: Printable| q@) =~= snapshot.map_values(
                            |q: Printable| q@,
                        ).push(p@));
                        assert(snapshot.map_values(|q: Printable| q@).push(p@) =~= bytes@.take(
                            i + 1,
                        ));
                    }
                },
                None => {
                    proof {
                        let k = if bytes@.len() < molecule_name_limit() {
                            bytes@.len() as int
                        } else {
                            molecule_name_limit()
                        };
                        assert(!(forall|j: int| 0 <= j < k ==> printable_byte(bytes@[j]))) by {
                            assert(0 <= i < k && !printable_byte(bytes@[i as int]));
                        };
                    }
                    return None;
                },
            }
            i += 1;
        }
        Some(MoleculeName(v))
    }

    /// How many symbols the name holds.
    pub fn len(&self) -> (r: usize)
        ensures
            r == self@.len(),
    {
        self.0.len()
    }

    /// Appends one printable symbol to the name.
    pub fn push(&mut self, printable: Printable)
        ensures
            final (self)@ == old(self)@.push(printable@),
    {
        let ghost pre = self.0@;
        self.0.push(printable);
        proof {
            assert(self.0@.map_values(|q: Printable| q@) =~= pre.map_values(|q: Printable| q@).push(
                printable@,
            ));
        }
    }
}

/// The decoding state machine for [`MoleculeName`].
#[derive(Debug, PartialEq)]
pub struct MoleculeNameBuilder(pub Vec<Printable>);

impl Builder for MoleculeNameBuilder {
    type Product = MoleculeName;

    type StateModel = Seq<u8>;

    type ProductModel = Seq<u8>;

    open spec fn inv(&self) -> bool {
        self.0@.len() < molecule_name_limit()
    }

    open spec fn model(&self) -> Seq<u8> {
        self.0@.map_values(|p: Printable| p@)
    }

    open spec fn product_model(product: &MoleculeName) -> Seq<u8> {
        product@
    }

    open spec fn spec_step(m: Seq<u8>, symbol: u8) -> Transition<Seq<u8>, Seq<u8>> {
        line_step(molecule_name_limit(), m, symbol)
    }

    open spec fn spec_finish(m: Seq<u8>) -> Option<Seq<u8>> {
        Some(m)
    }

    fn push(self, printable: Printable) -> (r: Result<
        Target<MoleculeName, MoleculeNameBuilder>,
        Error,
    >) {
        let mut v = self.0;
        let ghost pre = v@;
        v.push(printable);
        proof {
            assert(v@.map_values(|p: Printable| p@) =~= pre.map_values(|p: Printable| p@).push(
                printable@,
            ));
        }
        Ok(
            if v.len() == 80 {
                Target::Product(MoleculeName(v))
            } else {
                Target::Builder(MoleculeNameBuilder(v))
            },
        )
    }

    fn done(self) -> (r: Option<MoleculeName>) {
        Some(MoleculeName(self.0))
    }
}

} // verus!
