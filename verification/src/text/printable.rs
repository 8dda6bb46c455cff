use vstd::prelude::*;

verus! {

/// Holds iff `b` lies in the printable ASCII range.
pub open spec fn printable_byte(b: u8) -> bool {
    0x20 <= b <= 0x7e
}

/// One printable ASCII symbol: a byte in the range `0x20..=0x7e`.
///
/// Bytes outside that range have no `Printable` representation; every
/// constructor enforces the range, so a `Printable` obtained from this module
/// always views to a printable byte.
#[derive(Debug, Clone, Copy, PartialEq, Eq, Structural)]
pub struct Printable {
    byte: u8,
}

impl View for Printable {
    type V = u8;

    closed spec fn view(&self) -> u8 {
        self.byte
    }
}

impl Printable {
    /// The symbol for `byte`, if `byte` is printable.
    pub fn from_byte(byte: u8) -> (r: Option<Printable>)
        ensures
            r is Some <==> printable_byte(byte),
            r matches Some(p) ==> p@ == byte,
    {
        if 0x20 <= byte && byte <= 0x7e {
            Some(Printable { byte })
        } else {
            None
        }
    }

    /// The symbol for a byte known to be printable.
    pub fn new(byte: u8) -> (r: Printable)
        requires
            printable_byte(byte),
        ensures
            r@ == byte,
    {
        Printable { byte }
    }

    /// The underlying byte.
    pub fn to_byte(&self) -> (b: u8)
        ensures
            b == self@,
    {
        self.byte
    }

    /// The blank (space) symbol.
    pub fn space() -> (r: Printable)
        ensures
            r@ == 0x20u8,
    {
        Printable { byte: 0x20 }
    }

    /// All ten decimal digit symbols, in ascending order.
    pub fn digits() -> (r: Vec<Printable>)
        ensures
            r@.map_values(|p: Printable| p@) =~= digit_bytes(),
    {
        let mut v: Vec<Printable> = Vec::new();
        v.push(Printable { byte: 0x30 });
        v.push(Printable { byte: 0x31 });
        v.push(Printable { byte: 0x32 });
        v.push(Printable { byte: 0x33 });
        v.push(Printable { byte: 0x34 });
        v.push(Printable { byte: 0x35 });
        v.push(Printable { byte: 0x36 });
        v.push(Printable { byte: 0x37 });
        v.push(Printable { byte: 0x38 });
        v.push(Printable { byte: 0x39 });
        v
    }

    /// The nine non-zero decimal digit symbols, in ascending order.
    pub fn non_zero_digits() -> (r: Vec<Printable>)
        ensures
            r@.map_values(|p: Printable| p@) =~= non_zero_digit_bytes(),
    {
        let mut v: Vec<Printable> = Vec::new();
        v.push(Printable { byte: 0x31 });
        v.push(Printable { byte: 0x32 });
        v.push(Printable { byte: 0x33 });
        v.push(Printable { byte: 0x34 });
        v.push(Printable { byte: 0x35 });
        v.push(Printable { byte: 0x36 });
        v.push(Printable { byte: 0x37 });
        v.push(Printable { byte: 0x38 });
        v.push(Printable { byte: 0x39 });
        v
    }
}

/// The bytes of the ten decimal digit characters.
pub open spec fn digit_bytes() -> Seq<u8> {
    seq![0x30u8, 0x31u8, 0x32u8, 0x33u8, 0x34u8, 0x35u8, 0x36u8, 0x37u8, 0x38u8, 0x39u8]
}

/// The bytes of the nine non-zero decimal digit characters.
pub open spec fn non_zero_digit_bytes() -> Seq<u8> {
    seq![0x31u8, 0x32u8, 0x33u8, 0x34u8, 0x35u8, 0x36u8, 0x37u8, 0x38u8, 0x39u8]
}

} // verus!
