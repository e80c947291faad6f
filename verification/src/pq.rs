//! Luminance as perceptual-quantizer codewords.
//!
//! The library works on integers only. The transfer function from nits to
//! 12-bit codewords is handed to it as a table, one codeword for each whole
//! number of nits from 0 to 10000, which it accepts only if the table is
//! shaped like the transfer function: it starts at 0, ends at the largest
//! codeword and never decreases.

use vstd::prelude::*;
use crate::metadata::PQ_MAX;

verus! {

/// The peak luminance the transfer function is defined for, in nits.
pub const MAX_NITS: u16 = 10000;

/// A table of codewords is shaped like the transfer function.
pub open spec fn is_pq_curve(codes: Seq<u16>) -> bool {
    &&& codes.len() == MAX_NITS + 1
    &&& codes[0] == 0
    &&& codes[MAX_NITS as int] == PQ_MAX
    &&& forall|a: int, b: int| 0 <= a <= b <= MAX_NITS ==> codes[a] <= codes[b]
}

/// Each codeword of the table is at most the one that follows it.
pub open spec fn steps_up(codes: Seq<u16>, upto: int) -> bool {
    forall|a: int| 0 <= a < upto ==> codes[a] <= #[trigger] codes[a + 1]
}

/// The codeword of a whole number of nits, where the table has one.
pub open spec fn pq_code(codes: Seq<u16>, nits: u16) -> Option<u16> {
    if nits <= MAX_NITS {
        Some(codes[nits as int])
    } else {
        None
    }
}

/// A luminance in tenths of a nit, rounded to the nearest whole number of
/// nits, halves upwards, and capped at the largest 16-bit value.
pub open spec fn rounded_nits(tenth_nits: u64) -> u16 {
    if (tenth_nits + 5) / 10 >= u16::MAX {
        u16::MAX
    } else {
        ((tenth_nits + 5) / 10) as u16
    }
}

/// The codeword of a luminance given in tenths of a nit, where the rounded
/// luminance is one the table covers.
pub open spec fn luminance_code(codes: Seq<u16>, tenth_nits: u64) -> Option<u16> {
    pq_code(codes, rounded_nits(tenth_nits))
}

/// A table that never steps down never decreases over any distance.
pub proof fn lemma_steps_up_is_monotone(codes: Seq<u16>, upto: int, a: int, b: int)
    requires
        steps_up(codes, upto),
        0 <= a <= b <= upto,
    ensures
        codes[a] <= codes[b],
    decreases b - a,
{
    if a < b {
        lemma_steps_up_is_monotone(codes, upto, a, b - 1);
        assert(codes[b - 1] <= codes[b - 1 + 1]);
    }
}

/// Every codeword of a well-shaped table fits in 12 bits.
pub proof fn lemma_pq_code_in_range(codes: Seq<u16>, nits: u16)
    requires
        is_pq_curve(codes),
    ensures
        pq_code(codes, nits) matches Some(code) ==> code <= PQ_MAX,
{
}

/// Rounding to whole nits keeps the order of luminances.
pub proof fn lemma_rounded_nits_is_monotone(low: u64, high: u64)
    requires
        low <= high,
    ensures
        rounded_nits(low) <= rounded_nits(high),
{
}

/// A brighter luminance never has a smaller codeword: over the luminances
/// that the table covers, the codeword never decreases; no luminance has a
/// codeword where a smaller one has none; zero has the codeword 0 and the
/// peak luminance the largest codeword.
pub proof fn lemma_luminance_code_is_monotone(codes: Seq<u16>, low: u64, high: u64)
    requires
        is_pq_curve(codes),
        low <= high,
    ensures
        luminance_code(codes, high) is Some ==> luminance_code(codes, low) is Some,
        luminance_code(codes, high) is Some ==> luminance_code(codes, low)->0 <= luminance_code(
            codes,
            high,
        )->0,
        luminance_code(codes, 0) == Some(0u16),
        luminance_code(codes, 100000) == Some(PQ_MAX),
{
    lemma_rounded_nits_is_monotone(low, high);
}

/// The transfer function from whole nits to 12-bit codewords, as a table.
pub struct PqCurve {
    codes: Vec<u16>,
}

impl View for PqCurve {
    type V = Seq<u16>;

    closed spec fn view(&self) -> Seq<u16> {
        self.codes@
    }
}

impl PqCurve {
    /// Every table that the library holds is shaped like the transfer
    /// function.
    #[verifier::type_invariant]
    pub open spec fn well_shaped(self) -> bool {
        is_pq_curve(self@)
    }

    /// Accepts a table of codewords, one for each whole number of nits from
    /// 0 to 10000, if and only if it is shaped like the transfer function.
    pub fn new(codes: Vec<u16>) -> (r: Option<PqCurve>)
        ensures
            match r {
                Some(curve) => is_pq_curve(codes@) && curve@ == codes@,
                None => !is_pq_curve(codes@),
            },
    {
        if codes.len() != MAX_NITS as usize + 1 {
            return None;
        }
        if codes[0] != 0 || codes[MAX_NITS as usize] != PQ_MAX {
            return None;
        }
        let mut nits: usize = 0;
        while nits < MAX_NITS as usize
            invariant
                nits <= MAX_NITS,
                codes@.len() == MAX_NITS + 1,
                steps_up(codes@, nits as int),
            decreases MAX_NITS - nits,
        {
            if codes[nits] > codes[nits + 1] {
                return None;
            }
            nits += 1;
        }
        proof {
            assert forall|a: int, b: int| 0 <= a <= b <= MAX_NITS
                implies codes@[a] <= codes@[b] by {
                lemma_steps_up_is_monotone(codes@, MAX_NITS as int, a, b);
            }
        }
        Some(PqCurve { codes })
    }

    /// The table itself, which is shaped like the transfer function.
    pub fn codes(&self) -> (r: &Vec<u16>)
        ensures
            r@ == self@,
            is_pq_curve(self@),
    {
        proof {
            use_type_invariant(self);
        }
        &self.codes
    }

    /// The codeword of a whole number of nits: `None` above 10000 nits.
    pub fn code(&self, nits: u16) -> (r: Option<u16>)
        ensures
            r == pq_code(self@, nits),
            r matches Some(code) ==> code <= PQ_MAX,
    {
        proof {
            use_type_invariant(self);
        }
        if nits <= MAX_NITS {
            Some(self.codes[nits as usize])
        } else {
            None
        }
    }
}

/// Rounds a luminance in tenths of a nit to whole nits.
pub fn round_to_nits(tenth_nits: u64) -> (nits: u16)
    ensures
        nits == rounded_nits(tenth_nits),
{
    if tenth_nits >= 655345 {
        u16::MAX
    } else {
        ((tenth_nits + 5) / 10) as u16
    }
}

} // verus!
