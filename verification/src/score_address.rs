//! Desirability scoring of a 20-byte contract address.
//!
//! The score is computed over the 40 nibbles of the address (high nibble of
//! each byte first): ten points per leading zero nibble, a 40-point bonus when
//! the four nibbles right after the leading-zero run are all `4` (plus 20 more
//! when the nibble after that run exists and is not `4`), a 20-point bonus when
//! the last four nibbles are all `4`, and one point per `4` nibble anywhere.

use vstd::prelude::*;

verus! {

/// The 40 nibbles of an address, high nibble of each byte first.
pub open spec fn nibbles_of(bytes: Seq<u8>) -> Seq<u8> {
    Seq::new(bytes.len() * 2, |i: int| if i % 2 == 0 { bytes[i / 2] >> 4u8 } else { bytes[i / 2] & 0x0fu8 })
}

/// Length of the run of zero nibbles at the front.
pub open spec fn leading_zero_count(n: Seq<u8>) -> nat
    decreases n.len(),
{
    if n.len() == 0 || n[0] != 0 {
        0
    } else {
        1 + leading_zero_count(n.drop_first())
    }
}

/// How many nibbles of the sequence equal `4`.
pub open spec fn count_fours(n: Seq<u8>) -> int
    decreases n.len(),
{
    if n.len() == 0 {
        0
    } else {
        count_fours(n.drop_last()) + if n.last() == 4 { 1int } else { 0int }
    }
}

/// Whether the four nibbles starting at `i` are all `4`.
pub open spec fn four_run_at(n: Seq<u8>, i: int) -> bool {
    n[i] == 4 && n[i + 1] == 4 && n[i + 2] == 4 && n[i + 3] == 4
}

/// Bonus for a run of four `4` nibbles placed right after the leading zeros:
/// 40 points, and 20 more when the nibble following the run exists and is not `4`.
pub open spec fn four_run_bonus(n: Seq<u8>) -> int {
    let lz = leading_zero_count(n) as int;
    if lz + 4 <= n.len() && four_run_at(n, lz) {
        40 + if lz + 4 < n.len() && n[lz + 4] != 4 { 20int } else { 0int }
    } else {
        0
    }
}

/// Bonus of 20 points when the last four nibbles are all `4`.
pub open spec fn trailing_fours_bonus(n: Seq<u8>) -> int {
    if n.len() >= 4 && four_run_at(n, n.len() - 4) {
        20
    } else {
        0
    }
}

/// Desirability score of an address, as a function of its nibbles.
pub open spec fn spec_score(address: Seq<u8>) -> int {
    let n = nibbles_of(address);
    10 * leading_zero_count(n) + four_run_bonus(n) + trailing_fours_bonus(n) + count_fours(n)
}

proof fn lemma_count_fours_step(n: Seq<u8>, i: int)
    requires
        0 <= i < n.len(),
    ensures
        count_fours(n.take(i + 1)) == count_fours(n.take(i)) + if n[i] == 4 { 1int } else { 0int },
{
    assert(n.take(i + 1).drop_last() =~= n.take(i));
    assert(n.take(i + 1).last() == n[i]);
}

proof fn lemma_leading_zero_count_is(n: Seq<u8>, k: int)
    requires
        0 <= k <= n.len(),
        forall|j: int| 0 <= j < k ==> n[j] == 0,
        k == n.len() || n[k] != 0,
    ensures
        leading_zero_count(n) == k,
    decreases k,
{
    if k == 0 {
    } else {
        let d = n.drop_first();
        assert(forall|j: int| 0 <= j < k - 1 ==> d[j] == n[j + 1] && d[j] == 0);
        lemma_leading_zero_count_is(d, k - 1);
    }
}

/// Score a 20-byte address by its nibble pattern.
pub fn score_address(address: &[u8]) -> (score: i32)
    requires
        address@.len() == 20,
    ensures
        score == spec_score(address@),
{
    let ghost n = nibbles_of(address@);

    // Expand the bytes into the 40 nibbles, high nibble first.
    let mut nibbles: Vec<u8> = Vec::new();
    for i in 0..20usize
        invariant
            address@.len() == 20,
            n == nibbles_of(address@),
            nibbles@.len() == 2 * i,
            forall|j: int| 0 <= j < 2 * i ==> nibbles@[j] == n[j],
    {
        let b = address[i];
        nibbles.push(b >> 4u8);
        nibbles.push(b & 0x0fu8);
    }
    assert(nibbles@ =~= n);

    // Count the leading zero nibbles.
    let mut lz: usize = 0;
    while lz < 40 && nibbles[lz] == 0
        invariant
            n.len() == 40,
            nibbles@ =~= n,
            lz <= 40,
            forall|j: int| 0 <= j < lz ==> n[j] == 0,
        decreases 40 - lz,
    {
        lz = lz + 1;
    }
    proof {
        lemma_leading_zero_count_is(n, lz as int);
    }

    let mut score: i32 = 10 * (lz as i32);

    // Bonus for a run of four `4`s right after the leading zeros.
    if lz + 4 <= 40 && nibbles[lz] == 4 && nibbles[lz + 1] == 4 && nibbles[lz + 2] == 4
        && nibbles[lz + 3] == 4 {
        score = score + 40;
        if lz + 4 < 40 && nibbles[lz + 4] != 4 {
            score = score + 20;
        }
    }
    assert(score == 10 * leading_zero_count(n) + four_run_bonus(n));

    // Bonus when the last four nibbles are all `4`.
    if nibbles[36] == 4 && nibbles[37] == 4 && nibbles[38] == 4 && nibbles[39] == 4 {
        score = score + 20;
    }

    // One point per `4` nibble anywhere in the address.
    let mut fours: i32 = 0;
    for i in 0..40usize
        invariant
            n.len() == 40,
            nibbles@ =~= n,
            0 <= fours <= i,
            fours == count_fours(n.take(i as int)),
    {
        proof {
            lemma_count_fours_step(n, i as int);
        }
        if nibbles[i] == 4 {
            fours = fours + 1;
        }
    }
    assert(n.take(40) =~= n);

    score + fours
}

/// An address whose four nibbles right after the leading-zero run are all `4`,
/// followed by a nibble that is not `4`, scores the leading-zero bonus plus 40
/// plus 20 plus one point per `4` nibble — provided its last four nibbles are
/// not all `4` (a trailing run of `4`s earns its own bonus on top).
pub proof fn lemma_score_four_run_after_zeros(address: Seq<u8>)
    requires
        address.len() == 20,
        leading_zero_count(nibbles_of(address)) + 4 < 40,
        four_run_at(nibbles_of(address), leading_zero_count(nibbles_of(address)) as int),
        nibbles_of(address)[leading_zero_count(nibbles_of(address)) as int + 4] != 4,
        !four_run_at(nibbles_of(address), 36),
    ensures
        spec_score(address) == 10 * leading_zero_count(nibbles_of(address)) + 40 + 20
            + count_fours(nibbles_of(address)),
{
}

/// An address whose last four nibbles are all `4` receives the 20-point
/// trailing bonus, whatever its leading-zero count and other bonuses are.
pub proof fn lemma_score_trailing_fours(address: Seq<u8>)
    requires
        address.len() == 20,
        four_run_at(nibbles_of(address), 36),
    ensures
        spec_score(address) == 10 * leading_zero_count(nibbles_of(address))
            + four_run_bonus(nibbles_of(address)) + count_fours(nibbles_of(address)) + 20,
{
}

} // verus!
