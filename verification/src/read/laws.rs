use vstd::prelude::*;

use crate::primitive::FixedIntegerBuilder;
use crate::primitive::FixedIntegerBuilderV;
use crate::primitive::FixedIntegerV;
use crate::primitive::FixedRealBuilder;
use crate::primitive::FixedRealBuilderV;
use crate::primitive::FixedRealV;
use crate::primitive::fixed_real_step;
use crate::protocol::Transition;
use crate::text::ByteClass;
use crate::text::Digit;
use crate::text::classify;
use crate::text::dec_digits;
use crate::text::digits_value;
use crate::text::lemma_dec_digits_leading;
use crate::text::lemma_dec_digits_value;
use crate::text::spec_digit_of_byte;
use crate::text::spec_non_zero_of_byte;

use super::reader::ReaderV;
use super::reader::spec_next_line;
use super::reader::spec_read_line_st;
use super::reader::spec_read_st;

verus! {

/// The character of a decimal digit.
pub open spec fn byte_of_digit(d: Digit) -> u8 {
    (0x30 + d.value()) as u8
}

/// The characters of a digit sequence.
pub open spec fn chars_of_digits(ds: Seq<Digit>) -> Seq<u8> {
    ds.map_values(|d: Digit| byte_of_digit(d))
}

/// A run of blank columns.
pub open spec fn blanks(n: int) -> Seq<u8> {
    Seq::new(n as nat, |i: int| 0x20u8)
}

/// The signed number a completed fixed-width integer denotes.
pub open spec fn fixed_integer_value(v: FixedIntegerV) -> int {
    match v {
        FixedIntegerV::Zero => 0,
        FixedIntegerV::Positive(ds) => digits_value(ds),
        FixedIntegerV::Negative(ds) => -digits_value(ds),
    }
}

/// Whether the decimal rendering of `n` — sign column included — fits in
/// exactly `width` columns with blank padding.
pub open spec fn fixed_integer_fits(n: int, width: int) -> bool {
    if n == 0 {
        width >= 1
    } else if n > 0 {
        dec_digits(n as nat).len() <= width
    } else {
        1 + dec_digits((-n) as nat).len() <= width
    }
}

/// The exact `width`-column rendering of `n`: blank padding, then the minus
/// sign for a negative number, then the decimal digits.
pub open spec fn int_rendering(n: int, width: int) -> Seq<u8> {
    if n == 0 {
        blanks(width - 1) + seq![0x30u8]
    } else if n > 0 {
        blanks(width - dec_digits(n as nat).len()) + chars_of_digits(dec_digits(n as nat))
    } else {
        blanks(width - 1 - dec_digits((-n) as nat).len()) + seq![0x2du8] + chars_of_digits(
            dec_digits((-n) as nat),
        )
    }
}

/// The completed fixed-width integer that denotes `n`.
pub open spec fn int_model_of(n: int) -> FixedIntegerV {
    if n == 0 {
        FixedIntegerV::Zero
    } else if n > 0 {
        FixedIntegerV::Positive(dec_digits(n as nat))
    } else {
        FixedIntegerV::Negative(dec_digits((-n) as nat))
    }
}

/// The reader state after consuming `n` symbols on the current line.
pub open spec fn advanced(rm: ReaderV, n: int) -> ReaderV {
    ReaderV { bytes: rm.bytes, pos: rm.pos + n, row: rm.row, col: rm.col + n }
}

/// A digit character classifies as a symbol denoting that digit.
proof fn lemma_digit_char(d: Digit)
    ensures
        0x30 <= byte_of_digit(d) <= 0x39,
        classify(byte_of_digit(d)) == crate::text::ByteClass::Symbol(byte_of_digit(d)),
        spec_digit_of_byte(byte_of_digit(d)) == Some(d),
        d matches Digit::NonZero(non_zero) ==> spec_non_zero_of_byte(byte_of_digit(d)) == Some(
            non_zero,
        ),
        d == Digit::Zero ==> byte_of_digit(d) == 0x30u8,
{
}

/// Accumulating the remaining digit characters of a positive number drives
/// the machine to completion at the final column.
proof fn lemma_accumulate_positive<const W: usize>(rm: ReaderV, p: int, acc: Seq<Digit>, rest: Seq<
    Digit,
>)
    requires
        rm.wf(),
        acc.len() >= 1,
        rest.len() >= 1,
        p >= 0,
        p + acc.len() + rest.len() == W,
        rm.pos + rest.len() <= rm.bytes.len(),
        rm.bytes.subrange(rm.pos, rm.pos + rest.len()) == chars_of_digits(rest),
    ensures
        spec_read_st::<FixedIntegerBuilder<W>>(rm, FixedIntegerBuilderV::Positive(p, acc)) == Ok::<
            (FixedIntegerV, ReaderV),
            (super::error::ErrorV, ReaderV),
        >((FixedIntegerV::Positive(acc + rest), advanced(rm, rest.len() as int))),
    decreases rest.len(),
{
    let c = rm.bytes[rm.pos];
    assert(c == chars_of_digits(rest)[0]);
    lemma_digit_char(rest[0]);
    if rest.len() == 1 {
        assert(acc.push(rest[0]) =~= acc + rest);
        assert(advanced(rm, 1) == rm.adv());
    } else {
        let acc2 = acc.push(rest[0]);
        let rest2 = rest.skip(1);
        assert(rm.adv().bytes.subrange(rm.adv().pos, rm.adv().pos + rest2.len())
            =~= chars_of_digits(rest2)) by {
            assert forall|i: int| 0 <= i < rest2.len() implies #[trigger] rm.bytes.subrange(
                rm.pos + 1,
                rm.pos + 1 + rest2.len(),
            )[i] == chars_of_digits(rest2)[i] by {
                assert(rm.bytes.subrange(rm.pos, rm.pos + rest.len())[i + 1] == chars_of_digits(
                    rest,
                )[i + 1]);
            }
        }
        lemma_accumulate_positive::<W>(rm.adv(), p, acc2, rest2);
        assert(acc2 + rest2 =~= acc + rest);
        assert(advanced(rm.adv(), rest2.len() as int) == advanced(rm, rest.len() as int));
    }
}

/// Accumulating the remaining digit characters of a negative number drives
/// the machine to completion at the final column.
proof fn lemma_accumulate_negative<const W: usize>(rm: ReaderV, p: int, acc: Seq<Digit>, rest: Seq<
    Digit,
>)
    requires
        rm.wf(),
        acc.len() >= 1,
        rest.len() >= 1,
        p >= 0,
        p + 1 + acc.len() + rest.len() == W,
        rm.pos + rest.len() <= rm.bytes.len(),
        rm.bytes.subrange(rm.pos, rm.pos + rest.len()) == chars_of_digits(rest),
    ensures
        spec_read_st::<FixedIntegerBuilder<W>>(rm, FixedIntegerBuilderV::Negative(p, acc)) == Ok::<
            (FixedIntegerV, ReaderV),
            (super::error::ErrorV, ReaderV),
        >((FixedIntegerV::Negative(acc + rest), advanced(rm, rest.len() as int))),
    decreases rest.len(),
{
    let c = rm.bytes[rm.pos];
    assert(c == chars_of_digits(rest)[0]);
    lemma_digit_char(rest[0]);
    if rest.len() == 1 {
        assert(acc.push(rest[0]) =~= acc + rest);
        assert(advanced(rm, 1) == rm.adv());
    } else {
        let acc2 = acc.push(rest[0]);
        let rest2 = rest.skip(1);
        assert(rm.adv().bytes.subrange(rm.adv().pos, rm.adv().pos + rest2.len())
            =~= chars_of_digits(rest2)) by {
            assert forall|i: int| 0 <= i < rest2.len() implies #[trigger] rm.bytes.subrange(
                rm.pos + 1,
                rm.pos + 1 + rest2.len(),
            )[i] == chars_of_digits(rest2)[i] by {
                assert(rm.bytes.subrange(rm.pos, rm.pos + rest.len())[i + 1] == chars_of_digits(
                    rest,
                )[i + 1]);
            }
        }
        lemma_accumulate_negative::<W>(rm.adv(), p, acc2, rest2);
        assert(acc2 + rest2 =~= acc + rest);
        assert(advanced(rm.adv(), rest2.len() as int) == advanced(rm, rest.len() as int));
    }
}

/// Blank columns keep the machine padding, one column at a time.
proof fn lemma_pad<const W: usize>(rm: ReaderV, p: int, b: int)
    requires
        rm.wf(),
        0 <= p,
        0 <= b,
        p + b < W,
        rm.pos + b <= rm.bytes.len(),
        rm.bytes.subrange(rm.pos, rm.pos + b) == blanks(b),
    ensures
        spec_read_st::<FixedIntegerBuilder<W>>(rm, FixedIntegerBuilderV::Pad(p)) == spec_read_st::<
            FixedIntegerBuilder<W>,
        >(advanced(rm, b), FixedIntegerBuilderV::Pad(p + b)),
    decreases b,
{
    if b > 0 {
        let c = rm.bytes[rm.pos];
        assert(c == blanks(b)[0]);
        assert(c == 0x20u8);
        assert(rm.adv().bytes.subrange(rm.adv().pos, rm.adv().pos + (b - 1)) =~= blanks(b - 1)) by {
            assert forall|i: int| 0 <= i < b - 1 implies #[trigger] rm.bytes.subrange(
                rm.pos + 1,
                rm.pos + b,
            )[i] == blanks(b - 1)[i] by {
                assert(rm.bytes.subrange(rm.pos, rm.pos + b)[i + 1] == blanks(b)[i + 1]);
            }
        }
        lemma_pad::<W>(rm.adv(), p + 1, b - 1);
        assert(advanced(rm.adv(), b - 1) == advanced(rm, b));
    } else {
        assert(advanced(rm, 0) == rm);
    }
}

/// Decoding the exact `W`-column rendering of any `n` that fits always
/// succeeds, consumes exactly `W` columns, and reproduces `n`.
pub proof fn lemma_fixed_integer_decodes_rendering<const W: usize>(n: int, rm: ReaderV)
    requires
        rm.wf(),
        W >= 1,
        fixed_integer_fits(n, W as int),
        rm.pos + W <= rm.bytes.len(),
        rm.bytes.subrange(rm.pos, rm.pos + W) == int_rendering(n, W as int),
    ensures
        spec_read_st::<FixedIntegerBuilder<W>>(rm, FixedIntegerBuilderV::Pad(0)) matches Ok(pr)
            && pr.0 == int_model_of(n) && fixed_integer_value(pr.0) == n && pr.1 == advanced(
            rm,
            W as int,
        ),
{
    let width = W as int;
    let rendering = int_rendering(n, width);
    assert(forall|i: int|
        0 <= i < W ==> rm.bytes[rm.pos + i] == #[trigger] rm.bytes.subrange(rm.pos, rm.pos + W)[i]);
    if n == 0 {
        let b = width - 1;
        assert(rm.bytes.subrange(rm.pos, rm.pos + b) =~= blanks(b));
        lemma_pad::<W>(rm, 0, b);
        let rm2 = advanced(rm, b);
        assert(rm2.bytes[rm2.pos] == rendering[b]);
        assert(rendering[b] == 0x30u8);
        assert(classify(0x30u8) == crate::text::ByteClass::Symbol(0x30u8));
        assert(advanced(rm2, 1) == advanced(rm, width));

    } else if n > 0 {
        let ds = dec_digits(n as nat);
        lemma_dec_digits_leading(n as nat);
        lemma_dec_digits_value(n as nat);
        let b = width - ds.len();
        assert(rm.bytes.subrange(rm.pos, rm.pos + b) =~= blanks(b)) by {
            assert(forall|i: int| 0 <= i < b ==> blanks(b)[i] == #[trigger] rendering[i]);
        }
        if b > 0 {
            lemma_pad::<W>(rm, 0, b);
        } else {
            assert(advanced(rm, 0) == rm);
        }
        let rm2 = advanced(rm, b);
        let head = ds[0];
        lemma_digit_char(head);
        assert(rm2.bytes[rm2.pos] == rendering[b]);
        assert(rendering[b] == chars_of_digits(ds)[0]);
        if ds.len() == 1 {
            assert(seq![head] =~= ds);
            assert(advanced(rm2, 1) == advanced(rm, width));

        } else {
            let rm3 = rm2.adv();
            let rest = ds.skip(1);
            assert forall|i: int| 0 <= i < rest.len() implies #[trigger] rm3.bytes.subrange(
                rm3.pos,
                rm3.pos + rest.len(),
            )[i] == chars_of_digits(rest)[i] by {
                assert(rm.bytes.subrange(rm.pos, rm.pos + W)[b + 1 + i] == rendering[b + 1 + i]);
                assert(rendering[b + 1 + i] == chars_of_digits(ds)[1 + i]);
                assert(chars_of_digits(ds)[1 + i] == byte_of_digit(ds[1 + i]));
                assert(chars_of_digits(rest)[i] == byte_of_digit(rest[i]));
                assert(rest[i] == ds[1 + i]);
            }
            assert(rm3.bytes.subrange(rm3.pos, rm3.pos + rest.len()) =~= chars_of_digits(rest));
            lemma_accumulate_positive::<W>(rm3, b, seq![head], rest);
            assert(seq![head] + rest =~= ds);
            assert(advanced(rm3, rest.len() as int) == advanced(rm, width));

        }
    } else {
        let m = (-n) as nat;
        let ds = dec_digits(m);
        lemma_dec_digits_leading(m);
        lemma_dec_digits_value(m);
        let b = width - 1 - ds.len();
        assert(rm.bytes.subrange(rm.pos, rm.pos + b) =~= blanks(b)) by {
            assert(forall|i: int| 0 <= i < b ==> blanks(b)[i] == #[trigger] rendering[i]);
        }
        if b > 0 {
            lemma_pad::<W>(rm, 0, b);
        } else {
            assert(advanced(rm, 0) == rm);
        }
        let rm2 = advanced(rm, b);
        assert(rm2.bytes[rm2.pos] == rendering[b]);
        assert(rendering[b] == 0x2du8);
        let rm3 = rm2.adv();
        assert(spec_read_st::<FixedIntegerBuilder<W>>(rm2, FixedIntegerBuilderV::Pad(b))
            == spec_read_st::<FixedIntegerBuilder<W>>(rm3, FixedIntegerBuilderV::Minus(b)));
        let head = ds[0];
        lemma_digit_char(head);
        assert(rm3.bytes[rm3.pos] == rendering[b + 1]);
        assert(rendering[b + 1] == chars_of_digits(ds)[0]);
        if ds.len() == 1 {
            assert(seq![head] =~= ds);
            assert(advanced(rm3, 1) == advanced(rm, width));

        } else {
            let rm4 = rm3.adv();
            let rest = ds.skip(1);
            assert forall|i: int| 0 <= i < rest.len() implies #[trigger] rm4.bytes.subrange(
                rm4.pos,
                rm4.pos + rest.len(),
            )[i] == chars_of_digits(rest)[i] by {
                assert(rm.bytes.subrange(rm.pos, rm.pos + W)[b + 2 + i] == rendering[b + 2 + i]);
                assert(rendering[b + 2 + i] == chars_of_digits(ds)[1 + i]);
                assert(chars_of_digits(ds)[1 + i] == byte_of_digit(ds[1 + i]));
                assert(chars_of_digits(rest)[i] == byte_of_digit(rest[i]));
                assert(rest[i] == ds[1 + i]);
            }
            assert(rm4.bytes.subrange(rm4.pos, rm4.pos + rest.len()) =~= chars_of_digits(rest));
            lemma_accumulate_negative::<W>(rm4, b, seq![head], rest);
            assert(seq![head] + rest =~= ds);
            assert(advanced(rm4, rest.len() as int) == advanced(rm, width));

        }
    }
}

/// How many symbols an integer machine state has consumed.
pub open spec fn int_consumed(m: FixedIntegerBuilderV) -> int {
    match m {
        FixedIntegerBuilderV::Pad(p) => p,
        FixedIntegerBuilderV::Minus(p) => p + 1,
        FixedIntegerBuilderV::Negative(p, ds) => p + 1 + ds.len(),
        FixedIntegerBuilderV::Positive(p, ds) => p + ds.len(),
    }
}

/// Validity of an integer machine state model of width `width`: every state
/// reachable from the starting state satisfies it.
pub open spec fn int_model_wf(width: int, m: FixedIntegerBuilderV) -> bool {
    match m {
        FixedIntegerBuilderV::Pad(p) => 0 <= p < width,
        FixedIntegerBuilderV::Minus(p) => 0 <= p && p + 1 < width,
        FixedIntegerBuilderV::Negative(p, ds) => 0 <= p && ds.len() >= 1 && p + 1 + ds.len()
            < width,
        FixedIntegerBuilderV::Positive(p, ds) => 0 <= p && ds.len() >= 1 && p + ds.len() < width,
    }
}

/// How many symbols a real machine state has consumed, the decimal point
/// included.
pub open spec fn real_consumed(width_i: int, m: FixedRealBuilderV) -> int {
    match m {
        FixedRealBuilderV::IntegerPart(im) => int_consumed(im),
        FixedRealBuilderV::Decimal(_) => width_i,
        FixedRealBuilderV::FractionalPart(_, ds) => width_i + 1 + ds.len(),
    }
}

/// Validity of a real machine state model of widths `width_i` and `width_f`.
pub open spec fn real_model_wf(width_i: int, width_f: int, m: FixedRealBuilderV) -> bool {
    width_f >= 1 && match m {
        FixedRealBuilderV::IntegerPart(im) => int_model_wf(width_i, im),
        FixedRealBuilderV::Decimal(_) => true,
        FixedRealBuilderV::FractionalPart(_, ds) => ds.len() < width_f,
    }
}

/// One step of the integer machine consumes one symbol, stays valid, and
/// completes exactly at its width.
proof fn lemma_int_step_consumed(width: int, m: FixedIntegerBuilderV, c: u8)
    requires
        int_model_wf(width, m),
    ensures
        crate::primitive::fixed_integer_step(width, m, c) matches Transition::Next(m2) ==> (
        int_model_wf(width, m2) && int_consumed(m2) == int_consumed(m) + 1),
        crate::primitive::fixed_integer_step(width, m, c) matches Transition::Done(_)
            ==> int_consumed(m) + 1 == width,
{
}

/// One step of the real machine consumes one symbol, stays valid, and
/// completes exactly when the integer width, the decimal point, and the
/// fractional width are all consumed.
proof fn lemma_real_step_consumed(width_i: int, width_f: int, m: FixedRealBuilderV, c: u8)
    requires
        real_model_wf(width_i, width_f, m),
    ensures
        fixed_real_step(width_i, width_f, m, c) matches Transition::Next(m2) ==> (real_model_wf(
            width_i,
            width_f,
            m2,
        ) && real_consumed(width_i, m2) == real_consumed(width_i, m) + 1),
        fixed_real_step(width_i, width_f, m, c) matches Transition::Done(_) ==> real_consumed(
            width_i,
            m,
        ) + 1 == width_i + 1 + width_f,
{
    match m {
        FixedRealBuilderV::IntegerPart(im) => {
            lemma_int_step_consumed(width_i, im, c);
        },
        _ => {},
    }
}

/// A fixed-point real field occupies exactly `I + 1 + F` columns: whenever a
/// decode from a valid machine state succeeds, the symbols it consumed
/// together with those the state already held amount to exactly the integer
/// width, the decimal point, and the fractional width.
pub proof fn lemma_fixed_real_exact_width<const I: usize, const F: usize>(
    rm: ReaderV,
    m: FixedRealBuilderV,
)
    requires
        real_model_wf(I as int, F as int, m),
    ensures
        spec_read_st::<FixedRealBuilder<I, F>>(rm, m) matches Ok(pr) ==> pr.1.pos - rm.pos == (
        I + 1 + F) - real_consumed(I as int, m),
    decreases rm.bytes.len() - rm.pos,
{
    if rm.pos < 0 || rm.at_end() {
    } else {
        match classify(rm.head()) {
            crate::text::ByteClass::Symbol(c) => {
                lemma_real_step_consumed(I as int, F as int, m, c);
                match fixed_real_step(I as int, F as int, m, c) {
                    Transition::Next(m2) => {
                        lemma_fixed_real_exact_width::<I, F>(rm.adv(), m2);
                    },
                    Transition::Done(_) => {},
                    Transition::Fail(_) => {},
                }
            },
            _ => {},
        }
    }
}

/// Decoding a fixed-point real from its starting state consumes exactly
/// `I + 1 + F` columns whenever it succeeds: one column fewer cannot have
/// completed the field, and the field never takes one more.
pub proof fn lemma_fixed_real_width_from_start<const I: usize, const F: usize>(rm: ReaderV)
    requires
        I >= 1,
        F >= 1,
    ensures
        spec_read_st::<FixedRealBuilder<I, F>>(
            rm,
            FixedRealBuilderV::IntegerPart(FixedIntegerBuilderV::Pad(0)),
        ) matches Ok(pr) ==> pr.1.pos - rm.pos == I + 1 + F,
{
    lemma_fixed_real_exact_width::<I, F>(
        rm,
        FixedRealBuilderV::IntegerPart(FixedIntegerBuilderV::Pad(0)),
    );
}

/// A fixed-point real field cannot end early: when an end-of-line marker or
/// the end of input stands anywhere within the columns a valid machine state
/// still needs, the decode fails — it never silently truncates.  In
/// particular, one fractional digit fewer than `F` fails at the line or
/// input end.
pub proof fn lemma_fixed_real_early_end_fails<const I: usize, const F: usize>(
    rm: ReaderV,
    m: FixedRealBuilderV,
    k: int,
)
    requires
        real_model_wf(I as int, F as int, m),
        0 <= k,
        real_consumed(I as int, m) + k < I + 1 + F,
        rm.pos >= 0,
        forall|i: int| 0 <= i < k ==> classify(#[trigger] rm.bytes[rm.pos + i]) matches ByteClass::Symbol(_),
        rm.pos + k == rm.bytes.len() || (rm.pos + k < rm.bytes.len() && classify(
            rm.bytes[rm.pos + k],
        ) matches ByteClass::Eol(_)),
    ensures
        spec_read_st::<FixedRealBuilder<I, F>>(rm, m) is Err,
    decreases k,
{
    if k == 0 {
    } else {
        assert(classify(rm.bytes[rm.pos + 0]) matches ByteClass::Symbol(_));
        assert(rm.bytes[rm.pos + 0] == rm.head());
        let c = rm.head();
        lemma_real_step_consumed(I as int, F as int, m, c);
        match fixed_real_step(I as int, F as int, m, c) {
            Transition::Next(m2) => {
                assert forall|i: int| 0 <= i < k - 1 implies classify(
                    #[trigger] rm.adv().bytes[rm.adv().pos + i],
                ) matches ByteClass::Symbol(_) by {
                    assert(classify(rm.bytes[rm.pos + (i + 1)]) matches ByteClass::Symbol(_));
                    assert(rm.adv().bytes[rm.adv().pos + i] == rm.bytes[rm.pos + (i + 1)]);
                }
                lemma_fixed_real_early_end_fails::<I, F>(rm.adv(), m2, k - 1);
            },
            Transition::Done(_) => {},
            Transition::Fail(_) => {},
        }
    }
}

/// A fixed-point real field never takes an extra column: behind the exact
/// `I + 1 + F`-column rendering of a value, a printable symbol where the
/// line boundary should stand makes the decode of field and boundary fail
/// with an overflow at exactly that column — one fractional digit more than
/// `F` is never absorbed into the value.
pub proof fn lemma_fixed_real_extra_column_overflows<const I: usize, const F: usize>(
    n: int,
    fr: Seq<Digit>,
    rm: ReaderV,
)
    requires
        rm.wf(),
        I >= 1,
        F >= 1,
        fixed_integer_fits(n, I as int),
        fr.len() == F,
        rm.pos + I + 1 + F < rm.bytes.len(),
        rm.bytes.subrange(rm.pos, rm.pos + I) == int_rendering(n, I as int),
        rm.bytes[rm.pos + I] == 0x2eu8,
        rm.bytes.subrange(rm.pos + I + 1, rm.pos + I + 1 + F) == chars_of_digits(fr),
        classify(rm.bytes[rm.pos + I + 1 + F]) matches crate::text::ByteClass::Symbol(_),
    ensures
        spec_read_line_st::<FixedRealBuilder<I, F>>(
            rm,
            FixedRealBuilderV::IntegerPart(FixedIntegerBuilderV::Pad(0)),
        ) == Err::<(FixedRealV, ReaderV), (super::error::ErrorV, ReaderV)>(
            (
                super::error::ErrorV::Overflow(rm.row, rm.col + I + 1 + F),
                advanced(rm, I + 1 + F),
            ),
        ),
{
    lemma_fixed_real_decodes_rendering::<I, F>(n, fr, rm);
    let rm2 = advanced(rm, I + 1 + F);
    assert(rm2.head() == rm.bytes[rm.pos + I + 1 + F]);
    assert(spec_next_line(rm2) == Err::<ReaderV, (super::error::ErrorV, ReaderV)>(
        (super::error::ErrorV::Overflow(rm2.row, rm2.col), rm2),
    ));
}

/// While the integer part of a real machine runs, it steps exactly as the
/// fixed-width integer machine of the same width: a failure is the same
/// failure, and the integer machine's completion leaves the real machine
/// expecting the decimal point at the same position.
proof fn lemma_real_runs_integer<const I: usize, const F: usize>(rm: ReaderV, im: FixedIntegerBuilderV)
    requires
        int_model_wf(I as int, im),
    ensures
        spec_read_st::<FixedIntegerBuilder<I>>(rm, im) matches Err(er) ==> spec_read_st::<
            FixedRealBuilder<I, F>,
        >(rm, FixedRealBuilderV::IntegerPart(im)) == Err::<(FixedRealV, ReaderV), (
            super::error::ErrorV,
            ReaderV,
        )>(er),
        spec_read_st::<FixedIntegerBuilder<I>>(rm, im) matches Ok(pr) ==> spec_read_st::<
            FixedRealBuilder<I, F>,
        >(rm, FixedRealBuilderV::IntegerPart(im)) == spec_read_st::<FixedRealBuilder<I, F>>(
            pr.1,
            FixedRealBuilderV::Decimal(pr.0),
        ),
    decreases rm.bytes.len() - rm.pos,
{
    if rm.pos < 0 || rm.at_end() {
    } else {
        match classify(rm.head()) {
            crate::text::ByteClass::Symbol(c) => {
                lemma_int_step_consumed(I as int, im, c);
                match crate::primitive::fixed_integer_step(I as int, im, c) {
                    Transition::Next(im2) => {
                        lemma_real_runs_integer::<I, F>(rm.adv(), im2);
                    },
                    Transition::Done(_) => {},
                    Transition::Fail(_) => {},
                }
            },
            _ => {},
        }
    }
}

/// Accumulating the remaining fractional digit characters drives the real
/// machine to completion at the final column.
proof fn lemma_accumulate_fraction<const I: usize, const F: usize>(
    rm: ReaderV,
    fi: crate::primitive::FixedIntegerV,
    acc: Seq<Digit>,
    rest: Seq<Digit>,
)
    requires
        rm.wf(),
        rest.len() >= 1,
        acc.len() + rest.len() == F,
        rm.pos + rest.len() <= rm.bytes.len(),
        rm.bytes.subrange(rm.pos, rm.pos + rest.len()) == chars_of_digits(rest),
    ensures
        spec_read_st::<FixedRealBuilder<I, F>>(rm, FixedRealBuilderV::FractionalPart(fi, acc))
            == Ok::<(FixedRealV, ReaderV), (super::error::ErrorV, ReaderV)>(
            (FixedRealV { integer: fi, fraction: acc + rest }, advanced(rm, rest.len() as int)),
        ),
    decreases rest.len(),
{
    let c = rm.bytes[rm.pos];
    assert(c == chars_of_digits(rest)[0]);
    lemma_digit_char(rest[0]);
    if rest.len() == 1 {
        assert(acc.push(rest[0]) =~= acc + rest);
        assert(advanced(rm, 1) == rm.adv());
    } else {
        let acc2 = acc.push(rest[0]);
        let rest2 = rest.skip(1);
        assert(rm.adv().bytes.subrange(rm.adv().pos, rm.adv().pos + rest2.len())
            =~= chars_of_digits(rest2)) by {
            assert forall|i: int| 0 <= i < rest2.len() implies #[trigger] rm.bytes.subrange(
                rm.pos + 1,
                rm.pos + 1 + rest2.len(),
            )[i] == chars_of_digits(rest2)[i] by {
                assert(rm.bytes.subrange(rm.pos, rm.pos + rest.len())[i + 1] == chars_of_digits(
                    rest,
                )[i + 1]);
            }
        }
        lemma_accumulate_fraction::<I, F>(rm.adv(), fi, acc2, rest2);
        assert(acc2 + rest2 =~= acc + rest);
        assert(advanced(rm.adv(), rest2.len() as int) == advanced(rm, rest.len() as int));
    }
}

/// Consuming fractional digit characters that do not yet fill the width
/// keeps the real machine accumulating.
proof fn lemma_fraction_prefix<const I: usize, const F: usize>(
    rm: ReaderV,
    fi: crate::primitive::FixedIntegerV,
    acc: Seq<Digit>,
    rest: Seq<Digit>,
)
    requires
        rm.wf(),
        acc.len() + rest.len() < F,
        rm.pos + rest.len() <= rm.bytes.len(),
        rm.bytes.subrange(rm.pos, rm.pos + rest.len()) == chars_of_digits(rest),
    ensures
        spec_read_st::<FixedRealBuilder<I, F>>(rm, FixedRealBuilderV::FractionalPart(fi, acc))
            == spec_read_st::<FixedRealBuilder<I, F>>(
            advanced(rm, rest.len() as int),
            FixedRealBuilderV::FractionalPart(fi, acc + rest),
        ),
    decreases rest.len(),
{
    if rest.len() == 0 {
        assert(acc + rest =~= acc);
        assert(advanced(rm, 0) == rm);
    } else {
        let c = rm.bytes[rm.pos];
        assert(c == chars_of_digits(rest)[0]);
        lemma_digit_char(rest[0]);
        let acc2 = acc.push(rest[0]);
        let rest2 = rest.skip(1);
        assert(rm.adv().bytes.subrange(rm.adv().pos, rm.adv().pos + rest2.len())
            =~= chars_of_digits(rest2)) by {
            assert forall|i: int| 0 <= i < rest2.len() implies #[trigger] rm.bytes.subrange(
                rm.pos + 1,
                rm.pos + 1 + rest2.len(),
            )[i] == chars_of_digits(rest2)[i] by {
                assert(rm.bytes.subrange(rm.pos, rm.pos + rest.len())[i + 1] == chars_of_digits(
                    rest,
                )[i + 1]);
            }
        }
        lemma_fraction_prefix::<I, F>(rm.adv(), fi, acc2, rest2);
        assert(acc2 + rest2 =~= acc + rest);
        assert(advanced(rm.adv(), rest2.len() as int) == advanced(rm, rest.len() as int));
    }
}

/// Decoding the exact `I + 1 + F`-column rendering of a fitting value —
/// the integer part's rendering, the decimal point, then exactly `F`
/// fractional digit characters — always succeeds, consumes exactly
/// `I + 1 + F` columns, and reproduces the value and its fraction.
pub proof fn lemma_fixed_real_decodes_rendering<const I: usize, const F: usize>(
    n: int,
    fr: Seq<Digit>,
    rm: ReaderV,
)
    requires
        rm.wf(),
        I >= 1,
        F >= 1,
        fixed_integer_fits(n, I as int),
        fr.len() == F,
        rm.pos + I + 1 + F <= rm.bytes.len(),
        rm.bytes.subrange(rm.pos, rm.pos + I) == int_rendering(n, I as int),
        rm.bytes[rm.pos + I] == 0x2eu8,
        rm.bytes.subrange(rm.pos + I + 1, rm.pos + I + 1 + F) == chars_of_digits(fr),
    ensures
        spec_read_st::<FixedRealBuilder<I, F>>(
            rm,
            FixedRealBuilderV::IntegerPart(FixedIntegerBuilderV::Pad(0)),
        ) == Ok::<(FixedRealV, ReaderV), (super::error::ErrorV, ReaderV)>(
            (
                FixedRealV { integer: int_model_of(n), fraction: fr },
                advanced(rm, I + 1 + F),
            ),
        ),
{
    lemma_fixed_integer_decodes_rendering::<I>(n, rm);
    lemma_real_runs_integer::<I, F>(rm, FixedIntegerBuilderV::Pad(0));
    let rm2 = advanced(rm, I as int);
    assert(rm2.head() == rm.bytes[rm.pos + I]);
    assert(classify(0x2eu8) == crate::text::ByteClass::Symbol(0x2eu8));
    let rm3 = rm2.adv();
    assert(rm3 == advanced(rm, I + 1));
    assert(rm3.bytes.subrange(rm3.pos, rm3.pos + F) =~= chars_of_digits(fr)) by {
        assert forall|i: int| 0 <= i < F implies #[trigger] rm3.bytes.subrange(
            rm3.pos,
            rm3.pos + F,
        )[i] == chars_of_digits(fr)[i] by {
            assert(rm.bytes.subrange(rm.pos + I + 1, rm.pos + I + 1 + F)[i] == chars_of_digits(
                fr,
            )[i]);
        }
    }
    lemma_accumulate_fraction::<I, F>(rm3, int_model_of(n), Seq::empty(), fr);
    assert(Seq::empty() + fr =~= fr);
    assert(advanced(rm3, F as int) == advanced(rm, I + 1 + F));
}

/// A rendering that stops short of the fractional width fails exactly as
/// the input ends: one fractional digit fewer than `F`, with the line or
/// the input ending there, is an end-of-line or end-of-input failure on the
/// field's own row — never a silently padded value.
pub proof fn lemma_fixed_real_short_fraction_fails<const I: usize, const F: usize>(
    n: int,
    fr: Seq<Digit>,
    rm: ReaderV,
)
    requires
        rm.wf(),
        I >= 1,
        F >= 1,
        fixed_integer_fits(n, I as int),
        fr.len() < F,
        rm.pos + I + 1 + fr.len() <= rm.bytes.len(),
        rm.bytes.subrange(rm.pos, rm.pos + I) == int_rendering(n, I as int),
        rm.bytes[rm.pos + I] == 0x2eu8,
        rm.bytes.subrange(rm.pos + I + 1, rm.pos + I + 1 + fr.len()) == chars_of_digits(fr),
        rm.pos + I + 1 + fr.len() == rm.bytes.len() || classify(
            rm.bytes[rm.pos + I + 1 + fr.len()],
        ) matches crate::text::ByteClass::Eol(_),
    ensures
        spec_read_st::<FixedRealBuilder<I, F>>(
            rm,
            FixedRealBuilderV::IntegerPart(FixedIntegerBuilderV::Pad(0)),
        ) == Err::<(FixedRealV, ReaderV), (super::error::ErrorV, ReaderV)>(
            (
                if rm.pos + I + 1 + fr.len() == rm.bytes.len() {
                    super::error::ErrorV::Eof(rm.row)
                } else {
                    super::error::ErrorV::Eol(rm.row)
                },
                advanced(rm, I + 1 + fr.len()),
            ),
        ),
{
    lemma_fixed_integer_decodes_rendering::<I>(n, rm);
    lemma_real_runs_integer::<I, F>(rm, FixedIntegerBuilderV::Pad(0));
    let rm2 = advanced(rm, I as int);
    assert(rm2.head() == rm.bytes[rm.pos + I]);
    assert(classify(0x2eu8) == crate::text::ByteClass::Symbol(0x2eu8));
    let rm3 = rm2.adv();
    assert(rm3 == advanced(rm, I + 1));
    assert(rm3.bytes.subrange(rm3.pos, rm3.pos + fr.len()) =~= chars_of_digits(fr)) by {
        assert forall|i: int| 0 <= i < fr.len() implies #[trigger] rm3.bytes.subrange(
            rm3.pos,
            rm3.pos + fr.len(),
        )[i] == chars_of_digits(fr)[i] by {
            assert(rm.bytes.subrange(rm.pos + I + 1, rm.pos + I + 1 + fr.len())[i]
                == chars_of_digits(fr)[i]);
        }
    }
    lemma_fraction_prefix::<I, F>(rm3, int_model_of(n), Seq::empty(), fr);
    assert(Seq::empty() + fr =~= fr);
    let rm4 = advanced(rm3, fr.len() as int);
    assert(rm4 == advanced(rm, I + 1 + fr.len()));
}

} // verus!
