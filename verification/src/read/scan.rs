use vstd::prelude::*;

use crate::text::ByteClass;
use crate::text::Character;
use crate::text::classify;

use super::error::Error;
use super::error::ErrorV;
use super::reader::Reader;
use super::reader::ReaderV;

verus! {

/// One step of every naive token matcher: a matcher advances when the
/// current byte equals its next expected byte, and resets to its start
/// otherwise.
pub open spec fn step_matchers(tokens: Seq<Seq<u8>>, states: Seq<int>, c: u8) -> Seq<int> {
    Seq::new(
        states.len(),
        |i: int|
            if 0 <= states[i] < tokens[i].len() && tokens[i][states[i]] == c {
                states[i] + 1
            } else {
                0
            },
    )
}

/// The first matcher, from index `from` on, that has reached the full length
/// of its (non-empty) token.
pub open spec fn first_full_match(tokens: Seq<Seq<u8>>, states: Seq<int>, from: int) -> Option<int>
    decreases tokens.len() - from,
{
    if from < 0 || from >= tokens.len() {
        None
    } else if tokens[from].len() > 0 && states[from] == tokens[from].len() {
        Some(from)
    } else {
        first_full_match(tokens, states, from + 1)
    }
}

/// Scanning a line while running one naive matcher per forbidden token:
/// collects the classified characters up to the limit, stopping without
/// consuming at an end-of-line marker or the end of input; a matcher that
/// reaches its token's full length aborts the scan with the columns the
/// token covered, start inclusive and end exclusive.
pub open spec fn spec_scan_line_excluding(
    rm: ReaderV,
    limit: int,
    tokens: Seq<Seq<u8>>,
    states: Seq<int>,
    collected: Seq<ByteClass>,
) -> Result<(Seq<ByteClass>, ReaderV), (ErrorV, ReaderV)>
    decreases limit,
{
    if limit <= 0 {
        Ok((collected, rm))
    } else if rm.pos < 0 || rm.at_end() {
        Ok((collected, rm))
    } else if rm.head_is_eol() {
        Ok((collected, rm))
    } else {
        let c = rm.head();
        let states2 = step_matchers(tokens, states, c);
        match first_full_match(tokens, states2, 0) {
            Some(i) => Err(
                (
                    ErrorV::Forbidden(rm.row, rm.col + 1 - tokens[i].len(), rm.col + 1),
                    rm.adv(),
                ),
            ),
            None => spec_scan_line_excluding(
                rm.adv(),
                limit - 1,
                tokens,
                states2,
                collected.push(classify(c)),
            ),
        }
    }
}

/// Below `from`, no matcher is full.
proof fn lemma_first_full_match_at(tokens: Seq<Seq<u8>>, states: Seq<int>, from: int, found: int)
    requires
        0 <= from <= found < tokens.len(),
        tokens[found].len() > 0 && states[found] == tokens[found].len(),
        forall|j: int|
            from <= j < found ==> !(tokens[j].len() > 0 && #[trigger] states[j] == tokens[j].len()),
    ensures
        first_full_match(tokens, states, from) == Some(found),
    decreases found - from,
{
    if from < found {
        lemma_first_full_match_at(tokens, states, from + 1, found);
    }
}

/// With no full matcher at all, the scan of the matchers finds none.
proof fn lemma_first_full_match_none(tokens: Seq<Seq<u8>>, states: Seq<int>, from: int)
    requires
        forall|j: int|
            from <= j < tokens.len() ==> !(tokens[j].len() > 0 && #[trigger] states[j]
                == tokens[j].len()),
    ensures
        first_full_match(tokens, states, from) is None,
    decreases tokens.len() - from,
{
    if 0 <= from < tokens.len() {
        lemma_first_full_match_none(tokens, states, from + 1);
    }
}

impl Reader {
    /// Collects up to `limit` classified characters of the current line —
    /// stopping, without consuming it, at the end-of-line marker or the end
    /// of input — while running one independent naive matcher per forbidden
    /// token; any matcher reaching its token's full length aborts the scan
    /// with the exact column span the token covered.  Exactly as
    /// `spec_scan_line_excluding` prescribes from fresh matchers.
    #[verifier::loop_isolation(false)]
    pub fn scan_line_excluding(&mut self, limit: usize, forbidden: &Vec<Vec<u8>>) -> (r: Result<
        Vec<Character>,
        Error,
    >)
        requires
            old(self)@.wf(),
        ensures
            final (self)@.wf(),
            final (self)@.bytes == old(self)@.bytes,
            match (r, spec_scan_line_excluding(
                old(self)@,
                limit as int,
                forbidden@.map_values(|t: Vec<u8>| t@),
                Seq::new(forbidden@.len(), |i: int| 0int),
                Seq::empty(),
            )) {
                (Ok(v), Ok(pr)) => v@.map_values(|ch: Character| ch@) == pr.0 && final (self)@
                    == pr.1,
                (Err(e), Err(er)) => e@ == er.0 && final (self)@ == er.1,
                _ => false,
            },
    {
        let ghost tokens = forbidden@.map_values(|t: Vec<u8>| t@);
        let ghost goal = spec_scan_line_excluding(
            self@,
            limit as int,
            tokens,
            Seq::new(forbidden@.len(), |i: int| 0int),
            Seq::empty(),
        );
        let mut states: Vec<usize> = Vec::new();
        let mut k: usize = 0;
        while k < forbidden.len()
            invariant
                k <= forbidden@.len(),
                states@.len() == k,
                forall|i: int| 0 <= i < k ==> states@[i] == 0,
            decreases forbidden@.len() - k,
        {
            states.push(0);
            k = k + 1;
        }
        proof {
            assert(states@.map_values(|s: usize| s as int) =~= Seq::new(
                forbidden@.len(),
                |i: int| 0int,
            ));
        }
        let mut collected: Vec<Character> = Vec::new();
        proof {
            assert(collected@.map_values(|ch: Character| ch@) =~= Seq::<ByteClass>::empty());
        }
        let mut count: usize = 0;
        while count < limit
            invariant
                self@.wf(),
                self@.bytes == old(self)@.bytes,
                count <= limit,
                states@.len() == forbidden@.len(),
                forall|i: int|
                    0 <= i < states@.len() ==> 0 <= #[trigger] states@[i] <= forbidden@[i]@.len()
                        && states@[i] <= self@.col,
                spec_scan_line_excluding(
                    self@,
                    limit as int - count,
                    tokens,
                    states@.map_values(|s: usize| s as int),
                    collected@.map_values(|ch: Character| ch@),
                ) == goal,
            decreases limit - count,
        {
            if self.at_eof() {
                return Ok(collected);
            }
            let byte = self.peek();
            let character = Character::from_byte(byte);
            if let Character::Eol(_) = character {
                return Ok(collected);
            }
            proof {
                assert(!(classify(byte) matches ByteClass::Eol(_)));
            }
            let ghost pre_states = states@.map_values(|s: usize| s as int);
            let ghost pre_rm = self@;
            self.consume_symbol();
            let mut j: usize = 0;
            while j < forbidden.len()
                invariant
                    states@.len() == forbidden@.len(),
                    j <= forbidden@.len(),
                    forall|i: int|
                        j <= i < states@.len() ==> #[trigger] states@[i] == pre_states[i],
                    forall|i: int|
                        0 <= i < j ==> #[trigger] states@[i] as int == step_matchers(
                            tokens,
                            pre_states,
                            byte,
                        )[i],
                    forall|i: int|
                        0 <= i < j ==> !(tokens[i].len() > 0 && #[trigger] states@[i] as int
                            == tokens[i].len()),
                    forall|i: int|
                        0 <= i < states@.len() ==> 0 <= #[trigger] states@[i]
                            <= forbidden@[i]@.len(),
                    forall|i: int| 0 <= i < states@.len() ==> states@[i] <= pre_rm.col + 1,
                decreases forbidden@.len() - j,
            {
                let token = &forbidden[j];
                let s = states[j];
                let next: usize = if s < token.len() && token[s] == byte {
                    s + 1
                } else {
                    0
                };
                states.set(j, next);
                if token.len() > 0 && next == token.len() {
                    proof {
                        let stepped = step_matchers(tokens, pre_states, byte);
                        assert(stepped[j as int] == next as int);
                        assert(forall|i: int|
                            0 <= i < j ==> #[trigger] stepped[i] == states@[i] as int);
                        lemma_first_full_match_at(tokens, stepped, 0, j as int);
                    }
                    let end = self.at_col();
                    let start = end - token.len();
                    return Err(Error::Forbidden(self.at_row(), start, end));
                }
                j = j + 1;
            }
            proof {
                assert(states@.map_values(|s: usize| s as int) =~= step_matchers(
                    tokens,
                    pre_states,
                    byte,
                ));
                lemma_first_full_match_none(tokens, states@.map_values(|s: usize| s as int), 0);
            }
            let ghost pre_chars = collected@;
            collected.push(character);
            proof {
                assert(collected@.map_values(|ch: Character| ch@) =~= pre_chars.map_values(
                    |ch: Character| ch@,
                ).push(classify(byte)));
            }
            count = count + 1;
        }
        Ok(collected)
    }
}

} // verus!
