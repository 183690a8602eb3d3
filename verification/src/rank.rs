use vstd::prelude::*;
use vstd::arithmetic::div_mod::lemma_div_is_ordered;
use vstd::arithmetic::div_mod::lemma_div_multiples_vanish;
use vstd::arithmetic::mul::lemma_mul_inequality;
use vstd::arithmetic::mul::lemma_mul_is_commutative;

verus! {

/// The truncation rank retained for a matrix of maximum possible rank
/// `max_rank` at compression level `level`: `floor(max_rank * (10 - level) / 10)`,
/// raised to at least 1 so that a rank-0 reconstruction is never produced.
pub open spec fn rank_for(max_rank: int, level: int) -> int {
    let k = max_rank * (10 - level) / 10;
    if k < 1 {
        1
    } else {
        k
    }
}

/// The retained rank always lies between 1 and the maximum rank: even at the
/// highest level on a degenerate matrix at least one singular triple is kept,
/// and no level asks for more triples than the matrix has.
pub proof fn lemma_rank_bounds(max_rank: int, level: int)
    requires
        1 <= max_rank,
        0 <= level <= 9,
    ensures
        1 <= rank_for(max_rank, level) <= max_rank,
{
    lemma_mul_is_commutative(max_rank, 10 - level);
    lemma_mul_inequality(10 - level, 10, max_rank);
    lemma_mul_is_commutative(10, max_rank);
    lemma_div_is_ordered(max_rank * (10 - level), max_rank * 10, 10);
    lemma_div_multiples_vanish(max_rank, 10);
}

/// Level 0 keeps the full rank: the reconstruction then uses every singular
/// triple, so it is exact up to numerical rounding.
pub proof fn lemma_full_rank_at_level_zero(max_rank: int)
    requires
        1 <= max_rank,
    ensures
        rank_for(max_rank, 0) == max_rank,
{
    lemma_mul_is_commutative(max_rank, 10);
    lemma_div_multiples_vanish(max_rank, 10);
}

/// Raising the compression level never raises the retained rank: fidelity is
/// non-increasing as the level grows.
pub proof fn lemma_rank_monotone_in_level(max_rank: int, low: int, high: int)
    requires
        1 <= max_rank,
        0 <= low <= high <= 9,
    ensures
        rank_for(max_rank, high) <= rank_for(max_rank, low),
{
    lemma_mul_is_commutative(max_rank, 10 - high);
    lemma_mul_inequality(10 - high, 10 - low, max_rank);
    lemma_mul_is_commutative(10 - low, max_rank);
    lemma_div_is_ordered(max_rank * (10 - high), max_rank * (10 - low), 10);
    lemma_rank_bounds(max_rank, low);
}

/// Maps a matrix's maximum possible rank and a compression level to the rank
/// kept by the truncated reconstruction. The same rank is used for every
/// channel of one image, so all color planes compress to the same degree.
pub fn select_rank(max_rank: u32, level: u8) -> (k: u32)
    requires
        1 <= max_rank,
        level <= 9,
    ensures
        k == rank_for(max_rank as int, level as int),
        1 <= k <= max_rank,
{
    proof {
        lemma_rank_bounds(max_rank as int, level as int);
        assert((max_rank as int) * (10 - level as int) <= 0xFFFF_FFFF * 10) by (nonlinear_arith)
            requires
                max_rank <= 0xFFFF_FFFF,
                0 <= level <= 9,
        ;
    }
    let wide: u64 = (max_rank as u64) * ((10 - level) as u64) / 10;
    if wide < 1 {
        1
    } else {
        wide as u32
    }
}

} // verus!
