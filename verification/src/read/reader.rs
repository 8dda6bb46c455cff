use vstd::prelude::*;

use crate::protocol::Builder;
use crate::protocol::Target;
use crate::protocol::Transition;
use crate::text::ByteClass;
use crate::text::Character;
use crate::text::Eol;
use crate::text::classify;

use super::error::Error;
use super::error::ErrorV;

verus! {

/// The model of the streaming reader: the whole input, the cursor position,
/// and the zero-based row and column the cursor stands at.
pub struct ReaderV {
    pub bytes: Seq<u8>,
    pub pos: int,
    pub row: int,
    pub col: int,
}

impl ReaderV {
    /// Validity of a reader state: the cursor lies inside the input, and the
    /// row and column never exceed the number of bytes consumed.
    pub open spec fn wf(self) -> bool {
        &&& 0 <= self.pos <= self.bytes.len()
        &&& 0 <= self.col <= self.pos
        &&& 0 <= self.row <= self.pos
    }

    /// Whether the input is exhausted.
    pub open spec fn at_end(self) -> bool {
        self.pos >= self.bytes.len()
    }

    /// The byte under the cursor.
    pub open spec fn head(self) -> u8 {
        self.bytes[self.pos]
    }

    /// Whether the byte under the cursor is an end-of-line marker.
    pub open spec fn head_is_eol(self) -> bool {
        classify(self.head()) matches ByteClass::Eol(_)
    }

    /// The state after consuming one symbol on the current line.
    pub open spec fn adv(self) -> ReaderV {
        ReaderV { bytes: self.bytes, pos: self.pos + 1, row: self.row, col: self.col }.bump()
    }

    /// Helper for `adv`: the column moves with the position.
    pub open spec fn bump(self) -> ReaderV {
        ReaderV { bytes: self.bytes, pos: self.pos, row: self.row, col: self.col + 1 }
    }
}

/// Driving a field machine from state model `m`: classify the byte under the
/// cursor without consuming it; at an end-of-line or the end of input the
/// machine must be accepting; a printable symbol is consumed only when the
/// machine takes it, so a failure always carries the position of the first
/// offending byte; a control or out-of-range byte fails at once.
pub open spec fn spec_read_st<B: Builder>(rm: ReaderV, m: B::StateModel) -> Result<
    (B::ProductModel, ReaderV),
    (ErrorV, ReaderV),
>
    decreases rm.bytes.len() - rm.pos,
{
    if rm.pos < 0 || rm.at_end() {
        match B::spec_finish(m) {
            Some(p) => Ok((p, rm)),
            None => Err((ErrorV::Eof(rm.row), rm)),
        }
    } else {
        match classify(rm.head()) {
            ByteClass::Eol(_) => match B::spec_finish(m) {
                Some(p) => Ok((p, rm)),
                None => Err((ErrorV::Eol(rm.row), rm)),
            },
            ByteClass::Symbol(c) => match B::spec_step(m, c) {
                Transition::Next(m2) => spec_read_st::<B>(rm.adv(), m2),
                Transition::Done(p) => Ok((p, rm.adv())),
                Transition::Fail(allowed) => Err((ErrorV::Character(rm.row, rm.col, allowed), rm)),
            },
            ByteClass::Control(b) => Err((ErrorV::Unprintable(rm.row, rm.col, b), rm)),
            ByteClass::High(b) => Err((ErrorV::OutOfRange(rm.row, rm.col, b), rm)),
        }
    }
}

/// Driving a field machine from a target that may already hold the product.
pub open spec fn spec_read<B: Builder>(
    rm: ReaderV,
    target: Target<B::Product, B>,
) -> Result<(B::ProductModel, ReaderV), (ErrorV, ReaderV)> {
    match target {
        Target::Builder(b) => spec_read_st::<B>(rm, b.model()),
        Target::Product(p) => Ok((B::product_model(&p), rm)),
    }
}

/// Consuming one logical end-of-line boundary: a carriage-return/line-feed
/// pair collapses to one boundary regardless of order, and the legacy record
/// separator stands alone.  Printable content where the boundary should
/// stand is an overflow; a control or out-of-range byte fails as such.
pub open spec fn spec_next_line(rm: ReaderV) -> Result<ReaderV, (ErrorV, ReaderV)> {
    if rm.pos < 0 || rm.at_end() {
        Err((ErrorV::Eof(rm.row), rm))
    } else {
        match classify(rm.head()) {
            ByteClass::Eol(eol) => {
                let second = match eol {
                    Eol::Cr => rm.pos + 1 < rm.bytes.len() && classify(rm.bytes[rm.pos + 1])
                        == ByteClass::Eol(Eol::Lf),
                    Eol::Lf => rm.pos + 1 < rm.bytes.len() && classify(rm.bytes[rm.pos + 1])
                        == ByteClass::Eol(Eol::Cr),
                    Eol::Rs => false,
                };
                let consumed = if second {
                    2int
                } else {
                    1int
                };
                Ok(ReaderV { bytes: rm.bytes, pos: rm.pos + consumed, row: rm.row + 1, col: 0 })
            },
            ByteClass::Symbol(_) => Err((ErrorV::Overflow(rm.row, rm.col), rm)),
            ByteClass::Control(b) => Err((ErrorV::Unprintable(rm.row, rm.col, b), rm)),
            ByteClass::High(b) => Err((ErrorV::OutOfRange(rm.row, rm.col, b), rm)),
        }
    }
}

/// Driving a field machine from state model `m` and then consuming the
/// end-of-line boundary behind it.
pub open spec fn spec_read_line_st<B: Builder>(rm: ReaderV, m: B::StateModel) -> Result<
    (B::ProductModel, ReaderV),
    (ErrorV, ReaderV),
> {
    match spec_read_st::<B>(rm, m) {
        Ok((p, rm1)) => match spec_next_line(rm1) {
            Ok(rm2) => Ok((p, rm2)),
            Err(e) => Err(e),
        },
        Err(e) => Err(e),
    }
}

/// Driving a field machine and then consuming the end-of-line boundary
/// behind it.
pub open spec fn spec_read_line<B: Builder>(
    rm: ReaderV,
    target: Target<B::Product, B>,
) -> Result<(B::ProductModel, ReaderV), (ErrorV, ReaderV)> {
    match spec_read::<B>(rm, target) {
        Ok((p, rm1)) => match spec_next_line(rm1) {
            Ok(rm2) => Ok((p, rm2)),
            Err(e) => Err(e),
        },
        Err(e) => Err(e),
    }
}

/// The streaming reader: owns the input bytes, a single-lookahead cursor,
/// and the exact (row, column) position used in diagnostics.
pub struct Reader {
    bytes: Vec<u8>,
    pos: usize,
    row: usize,
    column: usize,
}

impl View for Reader {
    type V = ReaderV;

    closed spec fn view(&self) -> ReaderV {
        ReaderV {
            bytes: self.bytes@,
            pos: self.pos as int,
            row: self.row as int,
            col: self.column as int,
        }
    }
}

impl Reader {
    /// A reader over `bytes`, standing at its first byte.
    pub fn new(bytes: Vec<u8>) -> (r: Reader)
        ensures
            r@.wf(),
            r@ == (ReaderV { bytes: bytes@, pos: 0, row: 0, col: 0 }),
    {
        Reader { bytes, pos: 0, row: 0, column: 0 }
    }

    /// Drives a field machine to completion and then consumes exactly one
    /// end-of-line boundary, exactly as `spec_read_line` prescribes.
    pub fn read_line<P, B: Builder<Product = P>>(&mut self, target: Target<P, B>) -> (r: Result<
        P,
        Error,
    >)
        requires
            old(self)@.wf(),
            target matches Target::Builder(b) ==> b.inv(),
        ensures
            final (self)@.wf(),
            final (self)@.bytes == old(self)@.bytes,
            match (r, spec_read_line::<B>(old(self)@, target)) {
                (Ok(p), Ok(pr)) => B::product_model(&p) == pr.0 && final (self)@ == pr.1,
                (Err(e), Err(er)) => e@ == er.0 && final (self)@ == er.1,
                _ => false,
            },
    {
        let product = self.read(target)?;
        self.next_line()?;
        Ok(product)
    }

    /// Drives a field machine to completion, exactly as `spec_read`
    /// prescribes: the product on success, or the failure at the first
    /// offending byte, which is never consumed.
    #[verifier::loop_isolation(false)]
    pub fn read<P, B: Builder<Product = P>>(&mut self, target: Target<P, B>) -> (r: Result<
        P,
        Error,
    >)
        requires
            old(self)@.wf(),
            target matches Target::Builder(b) ==> b.inv(),
        ensures
            final (self)@.wf(),
            final (self)@.bytes == old(self)@.bytes,
            match (r, spec_read::<B>(old(self)@, target)) {
                (Ok(p), Ok(pr)) => B::product_model(&p) == pr.0 && final (self)@ == pr.1,
                (Err(e), Err(er)) => e@ == er.0 && final (self)@ == er.1,
                _ => false,
            },
    {
        let ghost goal = spec_read::<B>(old(self)@, target);
        let mut target = target;
        loop
            invariant
                self@.wf(),
                self@.bytes == old(self)@.bytes,
                (target matches Target::Builder(b) ==> b.inv()),
                spec_read::<B>(self@, target) == goal,
            decreases self@.bytes.len() - self@.pos,
        {
            target = match target {
                Target::Builder(builder) => {
                    if self.pos == self.bytes.len() {
                        match builder.done() {
                            Some(product) => {
                                return Ok(product);
                            },
                            None => {
                                return Err(Error::Eof(self.row));
                            },
                        }
                    } else {
                        let byte = self.bytes[self.pos];
                        match Character::from_byte(byte) {
                            Character::Eol(_) => match builder.done() {
                                Some(product) => {
                                    return Ok(product);
                                },
                                None => {
                                    return Err(Error::Eol(self.row));
                                },
                            },
                            Character::Printable(printable) => {
                                match builder.push(printable) {
                                    Ok(next) => {
                                        self.pos = self.pos + 1;
                                        self.column = self.column + 1;
                                        next
                                    },
                                    Err(crate::protocol::Error::Character(allowed)) => {
                                        return Err(
                                            Error::Character(self.row, self.column, allowed),
                                        );
                                    },
                                }
                            },
                            Character::Unprintable(byte) => {
                                return Err(Error::Unprintable(self.row, self.column, byte));
                            },
                            Character::OutOfRange(byte) => {
                                return Err(Error::OutOfRange(self.row, self.column, byte));
                            },
                        }
                    }
                },
                Target::Product(product) => {
                    return Ok(product);
                },
            };
        }
    }

    /// Consumes exactly one end-of-line boundary, exactly as
    /// `spec_next_line` prescribes.
    pub fn next_line(&mut self) -> (r: Result<(), Error>)
        requires
            old(self)@.wf(),
        ensures
            final (self)@.wf(),
            final (self)@.bytes == old(self)@.bytes,
            match (r, spec_next_line(old(self)@)) {
                (Ok(()), Ok(rm)) => final (self)@ == rm,
                (Err(e), Err(er)) => e@ == er.0 && final (self)@ == er.1,
                _ => false,
            },
    {
        if self.pos == self.bytes.len() {
            return Err(Error::Eof(self.row));
        }
        let byte = self.bytes[self.pos];
        match Character::from_byte(byte) {
            Character::Eol(eol) => {
                match eol {
                    Eol::Cr => {
                        self.pos = self.pos + 1;
                        if self.pos < self.bytes.len() {
                            let next = self.bytes[self.pos];
                            if Character::from_byte(next).is_lf() {
                                self.pos = self.pos + 1;
                            }
                        }
                    },
                    Eol::Lf => {
                        self.pos = self.pos + 1;
                        if self.pos < self.bytes.len() {
                            let next = self.bytes[self.pos];
                            if Character::from_byte(next).is_cr() {
                                self.pos = self.pos + 1;
                            }
                        }
                    },
                    Eol::Rs => {
                        self.pos = self.pos + 1;
                    },
                }
                self.row = self.row + 1;
                self.column = 0;
                Ok(())
            },
            Character::Printable(_) => Err(Error::Overflow(self.row, self.column)),
            Character::Unprintable(byte) => Err(Error::Unprintable(self.row, self.column, byte)),
            Character::OutOfRange(byte) => Err(Error::OutOfRange(self.row, self.column, byte)),
        }
    }

    /// Whether the input is exhausted.
    pub(crate) fn at_eof(&self) -> (r: bool)
        requires
            self@.wf(),
        ensures
            r == self@.at_end(),
    {
        self.pos == self.bytes.len()
    }

    /// The byte under the cursor, without consuming it.
    pub(crate) fn peek(&self) -> (b: u8)
        requires
            self@.wf(),
            !self@.at_end(),
        ensures
            b == self@.head(),
    {
        self.bytes[self.pos]
    }

    /// Consumes one symbol on the current line.
    pub(crate) fn consume_symbol(&mut self)
        requires
            old(self)@.wf(),
            !old(self)@.at_end(),
        ensures
            final (self)@ == old(self)@.adv(),
            final (self)@.wf(),
    {
        proof {
            vstd::std_specs::vec::axiom_spec_len(&self.bytes);
        }
        self.pos = self.pos + 1;
        self.column = self.column + 1;
    }

    /// The zero-based row the cursor stands at.
    pub(crate) fn at_row(&self) -> (r: usize)
        ensures
            r == self@.row,
    {
        self.row
    }

    /// The zero-based column the cursor stands at.
    pub(crate) fn at_col(&self) -> (r: usize)
        ensures
            r == self@.col,
    {
        self.column
    }

    /// True iff the next byte, if any, is an end-of-line marker: the current
    /// line is intentionally empty.  Consumes nothing.
    pub fn has_blank(&mut self) -> (r: bool)
        requires
            old(self)@.wf(),
        ensures
            final (self)@ == old(self)@,
            r == (!old(self)@.at_end() && old(self)@.head_is_eol()),
    {
        if self.pos == self.bytes.len() {
            return false;
        }
        let byte = self.bytes[self.pos];
        match Character::from_byte(byte) {
            Character::Eol(_) => true,
            _ => false,
        }
    }
}

} // verus!
