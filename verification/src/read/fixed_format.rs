use vstd::prelude::*;

use crate::text::ByteClass;
use crate::text::Character;
use crate::text::Digit;
use crate::text::FixedNatural;
use crate::text::FortranFloat;
use crate::text::FortranFloatV;
use crate::text::FortranInt;
use crate::text::FortranIntV;
use crate::text::Natural;
use crate::text::Printable;
use crate::text::classify;
use crate::text::digit_bytes;
use crate::text::lemma_permissive_len;
use crate::text::permissive_digits;
use crate::text::spec_digit_of_byte;

use super::error::Error;
use super::error::ErrorV;
use super::reader::Reader;
use super::reader::ReaderV;

verus! {

/// The symbols acceptable inside a fixed-format numeric field: a blank, any
/// digit, and — before a sign or digit has been seen — a minus sign.
pub open spec fn fixed_format_allowed(started: bool) -> Seq<u8> {
    if started {
        seq![0x20u8] + digit_bytes()
    } else {
        seq![0x20u8, 0x2du8] + digit_bytes()
    }
}

/// The model of the value a completed fixed-format integer field denotes.
pub open spec fn fixed_format_value(minus: bool, ds: Seq<Digit>) -> Option<FortranIntV> {
    match permissive_digits(ds) {
        None => Some(FortranIntV::Zero),
        Some(sig) => Some(
            if minus {
                FortranIntV::Negative(sig)
            } else {
                FortranIntV::Positive(sig)
            },
        ),
    }
}

/// Decoding a fixed-format integer field with `left` columns of budget
/// remaining, a sign possibly seen and digits `ds` already collected: blanks
/// are a pure column budget and are ignored wherever they stand; one minus
/// sign may precede the first digit; the field is absent when all its
/// columns were blank; a sign without digits is malformed; the value reads
/// the digits permissively, skipping leading zeros.
pub open spec fn spec_fixed_format_int(rm: ReaderV, left: int, minus: bool, ds: Seq<Digit>) -> Result<
    (Option<FortranIntV>, ReaderV),
    (ErrorV, ReaderV),
>
    decreases left,
{
    if left <= 0 {
        if !minus && ds.len() == 0 {
            Ok((None, rm))
        } else if minus && ds.len() == 0 {
            Err((ErrorV::Character(rm.row, rm.col, digit_bytes()), rm))
        } else {
            Ok((fixed_format_value(minus, ds), rm))
        }
    } else if rm.pos < 0 || rm.at_end() {
        Err((ErrorV::Eof(rm.row), rm))
    } else {
        match classify(rm.head()) {
            ByteClass::Eol(_) => Err((ErrorV::Eol(rm.row), rm)),
            ByteClass::Symbol(c) => {
                if c == 0x20 {
                    spec_fixed_format_int(rm.adv(), left - 1, minus, ds)
                } else if c == 0x2d && !minus && ds.len() == 0 {
                    spec_fixed_format_int(rm.adv(), left - 1, true, ds)
                } else {
                    match spec_digit_of_byte(c) {
                        Some(d) => spec_fixed_format_int(rm.adv(), left - 1, minus, ds.push(d)),
                        None => Err(
                            (
                                ErrorV::Character(
                                    rm.row,
                                    rm.col,
                                    fixed_format_allowed(minus || ds.len() > 0),
                                ),
                                rm,
                            ),
                        ),
                    }
                }
            },
            ByteClass::Control(b) => Err((ErrorV::Unprintable(rm.row, rm.col, b), rm)),
            ByteClass::High(b) => Err((ErrorV::OutOfRange(rm.row, rm.col, b), rm)),
        }
    }
}

/// Collecting the fractional digits of a fixed-format real: `left` digit
/// columns remain, blanks among them are ignored.
pub open spec fn spec_fixed_format_fraction(rm: ReaderV, left: int, ds: Seq<Digit>) -> Result<
    (Seq<Digit>, ReaderV),
    (ErrorV, ReaderV),
>
    decreases left,
{
    if left <= 0 {
        Ok((ds, rm))
    } else if rm.pos < 0 || rm.at_end() {
        Err((ErrorV::Eof(rm.row), rm))
    } else {
        match classify(rm.head()) {
            ByteClass::Eol(_) => Err((ErrorV::Eol(rm.row), rm)),
            ByteClass::Symbol(c) => {
                if c == 0x20 {
                    spec_fixed_format_fraction(rm.adv(), left - 1, ds)
                } else {
                    match spec_digit_of_byte(c) {
                        Some(d) => spec_fixed_format_fraction(rm.adv(), left - 1, ds.push(d)),
                        None => Err(
                            (ErrorV::Character(rm.row, rm.col, fixed_format_allowed(true)), rm),
                        ),
                    }
                }
            },
            ByteClass::Control(b) => Err((ErrorV::Unprintable(rm.row, rm.col, b), rm)),
            ByteClass::High(b) => Err((ErrorV::OutOfRange(rm.row, rm.col, b), rm)),
        }
    }
}

/// Consuming the rest of an entirely blank field: `left` columns remain and
/// each must be blank.
pub open spec fn spec_blank_tail(rm: ReaderV, left: int) -> Result<ReaderV, (ErrorV, ReaderV)>
    decreases left,
{
    if left <= 0 {
        Ok(rm)
    } else if rm.pos < 0 || rm.at_end() {
        Err((ErrorV::Eof(rm.row), rm))
    } else {
        match classify(rm.head()) {
            ByteClass::Eol(_) => Err((ErrorV::Eol(rm.row), rm)),
            ByteClass::Symbol(c) => {
                if c == 0x20 {
                    spec_blank_tail(rm.adv(), left - 1)
                } else {
                    Err((ErrorV::Character(rm.row, rm.col, seq![0x20u8]), rm))
                }
            },
            ByteClass::Control(b) => Err((ErrorV::Unprintable(rm.row, rm.col, b), rm)),
            ByteClass::High(b) => Err((ErrorV::OutOfRange(rm.row, rm.col, b), rm)),
        }
    }
}

/// The integer part a fixed-format real takes from its integer field: an
/// absent integer field reads as zero.
pub open spec fn integer_or_zero(vi: Option<FortranIntV>) -> FortranIntV {
    match vi {
        Some(v) => v,
        None => FortranIntV::Zero,
    }
}

/// Decoding a fixed-format real field of widths `width_i` and `width_f`: the
/// integer field, then a mandatory decimal point, then the fractional digit
/// columns — except that a field blank in its entirety, decimal column
/// included, is absent rather than malformed.
pub open spec fn spec_fixed_format_real(rm: ReaderV, width_i: int, width_f: int) -> Result<
    (Option<FortranFloatV>, ReaderV),
    (ErrorV, ReaderV),
> {
    match spec_fixed_format_int(rm, width_i, false, Seq::empty()) {
        Err(e) => Err(e),
        Ok((vi, rm1)) => {
            if rm1.pos < 0 || rm1.at_end() {
                Err((ErrorV::Eof(rm1.row), rm1))
            } else {
                match classify(rm1.head()) {
                    ByteClass::Eol(_) => Err((ErrorV::Eol(rm1.row), rm1)),
                    ByteClass::Symbol(c) => {
                        if c == 0x2e {
                            match spec_fixed_format_fraction(rm1.adv(), width_f, Seq::empty()) {
                                Err(e) => Err(e),
                                Ok((fraction, rm2)) => Ok(
                                    (
                                        Some(
                                            FortranFloatV {
                                                integer: integer_or_zero(vi),
                                                fraction,
                                            },
                                        ),
                                        rm2,
                                    ),
                                ),
                            }
                        } else if c == 0x20 && vi is None {
                            match spec_blank_tail(rm1.adv(), width_f) {
                                Err(e) => Err(e),
                                Ok(rm2) => Ok((None, rm2)),
                            }
                        } else {
                            Err(
                                (
                                    ErrorV::Character(rm1.row, rm1.col, crate::protocol::dot_bytes()),
                                    rm1,
                                ),
                            )
                        }
                    },
                    ByteClass::Control(b) => Err((ErrorV::Unprintable(rm1.row, rm1.col, b), rm1)),
                    ByteClass::High(b) => Err((ErrorV::OutOfRange(rm1.row, rm1.col, b), rm1)),
                }
            }
        },
    }
}

/// The model of an optional fixed-format integer.
pub open spec fn fortran_int_opt_model<const I: usize>(v: Option<FortranInt<I>>) -> Option<
    FortranIntV,
> {
    match v {
        Some(fi) => Some(fi@),
        None => None,
    }
}

/// The model of an optional fixed-format real.
pub open spec fn fortran_float_opt_model<const I: usize, const F: usize>(
    v: Option<FortranFloat<I, F>>,
) -> Option<FortranFloatV> {
    match v {
        Some(ff) => Some(ff@),
        None => None,
    }
}

/// The acceptable symbols of a fixed-format column, as printables.
fn fixed_format_allowed_symbols(started: bool) -> (r: Vec<Printable>)
    ensures
        r@.map_values(|p: Printable| p@) == fixed_format_allowed(started),
{
    let mut v: Vec<Printable> = Vec::new();
    v.push(Printable::new(0x20));
    if !started {
        v.push(Printable::new(0x2d));
    }
    let mut ds = Printable::digits();
    v.append(&mut ds);
    proof {
        assert(v@.map_values(|p: Printable| p@) =~= fixed_format_allowed(started));
    }
    v
}

impl Reader {
    /// Decodes a legacy fixed-format integer field of `I` columns, exactly
    /// as `spec_fixed_format_int` prescribes from a fresh field: `Ok(None)`
    /// when the whole field is blank — a legitimately empty field, not a
    /// malformed one.
    #[verifier::loop_isolation(false)]
    pub fn decode_fixed_format_int<const I: usize>(&mut self) -> (r: Result<
        Option<FortranInt<I>>,
        Error,
    >)
        requires
            old(self)@.wf(),
        ensures
            final (self)@.wf(),
            final (self)@.bytes == old(self)@.bytes,
            match (r, spec_fixed_format_int(old(self)@, I as int, false, Seq::empty())) {
                (Ok(v), Ok(pr)) => fortran_int_opt_model(v) == pr.0 && final (self)@ == pr.1,
                (Err(e), Err(er)) => e@ == er.0 && final (self)@ == er.1,
                _ => false,
            },
    {
        let ghost goal = spec_fixed_format_int(self@, I as int, false, Seq::empty());
        let mut consumed: usize = 0;
        let mut minus = false;
        let mut collected: Vec<Digit> = Vec::new();
        proof {
            assert(collected@ =~= Seq::<Digit>::empty());
        }
        while consumed < I
            invariant
                self@.wf(),
                self@.bytes == old(self)@.bytes,
                consumed <= I,
                (if minus {
                    1int
                } else {
                    0int
                }) + collected@.len() <= consumed,
                spec_fixed_format_int(self@, I as int - consumed, minus, collected@) == goal,
            decreases I - consumed,
        {
            if self.at_eof() {
                return Err(Error::Eof(self.at_row()));
            }
            let byte = self.peek();
            match Character::from_byte(byte) {
                Character::Eol(_) => {
                    return Err(Error::Eol(self.at_row()));
                },
                Character::Printable(printable) => {
                    let c = printable.to_byte();
                    if c == 0x20 {
                        self.consume_symbol();
                    } else if c == 0x2d && !minus && collected.len() == 0 {
                        minus = true;
                        self.consume_symbol();
                    } else {
                        match Digit::from_printable(printable) {
                            Some(d) => {
                                collected.push(d);
                                self.consume_symbol();
                            },
                            None => {
                                let started = minus || collected.len() > 0;
                                return Err(
                                    Error::Character(
                                        self.at_row(),
                                        self.at_col(),
                                        fixed_format_allowed_symbols(started),
                                    ),
                                );
                            },
                        }
                    }
                },
                Character::Unprintable(b) => {
                    return Err(Error::Unprintable(self.at_row(), self.at_col(), b));
                },
                Character::OutOfRange(b) => {
                    return Err(Error::OutOfRange(self.at_row(), self.at_col(), b));
                },
            }
            consumed = consumed + 1;
        }
        if !minus && collected.len() == 0 {
            return Ok(None);
        }
        if minus && collected.len() == 0 {
            return Err(Error::Character(self.at_row(), self.at_col(), Printable::digits()));
        }
        proof {
            lemma_permissive_len(collected@);
        }
        match Natural::from_digits(collected) {
            None => Ok(Some(FortranInt::zero())),
            Some(natural) => {
                match FixedNatural::new(natural) {
                    Some(fixed) => {
                        if minus {
                            match FortranInt::negative(fixed) {
                                Some(v) => Ok(Some(v)),
                                None => vstd::pervasive::unreached(),
                            }
                        } else {
                            match FortranInt::positive(fixed) {
                                Some(v) => Ok(Some(v)),
                                None => vstd::pervasive::unreached(),
                            }
                        }
                    },
                    None => vstd::pervasive::unreached(),
                }
            },
        }
    }

    /// Decodes a legacy fixed-format real field of `I + 1 + F` columns,
    /// exactly as `spec_fixed_format_real` prescribes: `Ok(None)` when the
    /// entire field, decimal column included, is blank.
    #[verifier::loop_isolation(false)]
    pub fn decode_fixed_format_real<const I: usize, const F: usize>(&mut self) -> (r: Result<
        Option<FortranFloat<I, F>>,
        Error,
    >)
        requires
            old(self)@.wf(),
        ensures
            final (self)@.wf(),
            final (self)@.bytes == old(self)@.bytes,
            match (r, spec_fixed_format_real(old(self)@, I as int, F as int)) {
                (Ok(v), Ok(pr)) => fortran_float_opt_model(v) == pr.0 && final (self)@ == pr.1,
                (Err(e), Err(er)) => e@ == er.0 && final (self)@ == er.1,
                _ => false,
            },
    {
        let integer = self.decode_fixed_format_int::<I>()?;
        if self.at_eof() {
            return Err(Error::Eof(self.at_row()));
        }
        let byte = self.peek();
        match Character::from_byte(byte) {
            Character::Eol(_) => Err(Error::Eol(self.at_row())),
            Character::Printable(printable) => {
                let c = printable.to_byte();
                if c == 0x2e {
                    self.consume_symbol();
                    let ghost fgoal = spec_fixed_format_fraction(self@, F as int, Seq::empty());
                    let mut consumed: usize = 0;
                    let mut fraction: Vec<Digit> = Vec::new();
                    proof {
                        assert(fraction@ =~= Seq::<Digit>::empty());
                    }
                    while consumed < F
                        invariant
                            self@.wf(),
                            self@.bytes == old(self)@.bytes,
                            consumed <= F,
                            fraction@.len() <= consumed,
                            spec_fixed_format_fraction(self@, F as int - consumed, fraction@)
                                == fgoal,
                        decreases F - consumed,
                    {
                        if self.at_eof() {
                            return Err(Error::Eof(self.at_row()));
                        }
                        let b2 = self.peek();
                        match Character::from_byte(b2) {
                            Character::Eol(_) => {
                                return Err(Error::Eol(self.at_row()));
                            },
                            Character::Printable(symbol) => {
                                if symbol.to_byte() == 0x20 {
                                    self.consume_symbol();
                                } else {
                                    match Digit::from_printable(symbol) {
                                        Some(d) => {
                                            fraction.push(d);
                                            self.consume_symbol();
                                        },
                                        None => {
                                            return Err(
                                                Error::Character(
                                                    self.at_row(),
                                                    self.at_col(),
                                                    fixed_format_allowed_symbols(true),
                                                ),
                                            );
                                        },
                                    }
                                }
                            },
                            Character::Unprintable(b) => {
                                return Err(Error::Unprintable(self.at_row(), self.at_col(), b));
                            },
                            Character::OutOfRange(b) => {
                                return Err(Error::OutOfRange(self.at_row(), self.at_col(), b));
                            },
                        }
                        consumed = consumed + 1;
                    }
                    let integer_part = match integer {
                        Some(v) => v,
                        None => FortranInt::zero(),
                    };
                    match FortranFloat::new(integer_part, fraction) {
                        Some(v) => Ok(Some(v)),
                        None => vstd::pervasive::unreached(),
                    }
                } else if c == 0x20 && integer.is_none() {
                    self.consume_symbol();
                    let mut consumed: usize = 0;
                    let ghost bgoal = spec_blank_tail(self@, F as int);
                    while consumed < F
                        invariant
                            self@.wf(),
                            self@.bytes == old(self)@.bytes,
                            consumed <= F,
                            spec_blank_tail(self@, F as int - consumed) == bgoal,
                        decreases F - consumed,
                    {
                        if self.at_eof() {
                            return Err(Error::Eof(self.at_row()));
                        }
                        let b2 = self.peek();
                        match Character::from_byte(b2) {
                            Character::Eol(_) => {
                                return Err(Error::Eol(self.at_row()));
                            },
                            Character::Printable(symbol) => {
                                if symbol.to_byte() == 0x20 {
                                    self.consume_symbol();
                                } else {
                                    let mut allowed: Vec<Printable> = Vec::new();
                                    allowed.push(Printable::new(0x20));
                                    proof {
                                        assert(allowed@.map_values(|p: Printable| p@)
                                            =~= seq![0x20u8]);
                                    }
                                    return Err(
                                        Error::Character(self.at_row(), self.at_col(), allowed),
                                    );
                                }
                            },
                            Character::Unprintable(b) => {
                                return Err(Error::Unprintable(self.at_row(), self.at_col(), b));
                            },
                            Character::OutOfRange(b) => {
                                return Err(Error::OutOfRange(self.at_row(), self.at_col(), b));
                            },
                        }
                        consumed = consumed + 1;
                    }
                    Ok(None)
                } else {
                    let mut allowed: Vec<Printable> = Vec::new();
                    allowed.push(Printable::new(0x2e));
                    proof {
                        assert(allowed@.map_values(|p: Printable| p@)
                            =~= crate::protocol::dot_bytes());
                    }
                    Err(Error::Character(self.at_row(), self.at_col(), allowed))
                }
            },
            Character::Unprintable(b) => Err(Error::Unprintable(self.at_row(), self.at_col(), b)),
            Character::OutOfRange(b) => Err(Error::OutOfRange(self.at_row(), self.at_col(), b)),
        }
    }
}

} // verus!
