use vstd::prelude::*;
use vstd::arithmetic::div_mod::lemma_add_mod_noop;
use vstd::arithmetic::div_mod::lemma_mul_mod_noop_left;
use vstd::arithmetic::div_mod::lemma_small_mod;

verus! {

/// The weight that a participant with score 0 draws with, so that nobody is
/// left out of the draw.
pub const FLOOR_WEIGHT: u32 = 1;

/// The weight that a score draws with: the score itself, or the floor weight
/// for a score of 0.
pub open spec fn weight_of(score: u32) -> nat {
    if score == 0 {
        1
    } else {
        score as nat
    }
}

/// The weights of all `scores` together.
pub open spec fn total_weight(scores: Seq<u32>) -> nat
    decreases scores.len(),
{
    if scores.len() == 0 {
        0
    } else {
        total_weight(scores.drop_last()) + weight_of(scores.last())
    }
}

/// The weights of the first `n` scores together: where the range of tickets
/// of participant `n` begins.
pub open spec fn cumulative_weight(scores: Seq<u32>, n: int) -> nat {
    total_weight(scores.take(n))
}

/// The number that the bytes of a random output stand for, the first byte
/// being the most significant.
pub open spec fn random_value(bytes: Seq<u8>) -> nat
    decreases bytes.len(),
{
    if bytes.len() == 0 {
        0
    } else {
        random_value(bytes.drop_last()) * 256 + bytes.last() as nat
    }
}

/// The ticket that a random output draws among `scores`: its value modulo the
/// total weight.
pub open spec fn ticket_of(scores: Seq<u32>, random: Seq<u8>) -> int {
    (random_value(random) as int) % (total_weight(scores) as int)
}

/// Participant `i` holds `ticket`: the ticket lies in the range that begins
/// where the weights of the earlier participants end and is as long as the
/// participant's own weight.
pub open spec fn holds_ticket(scores: Seq<u32>, ticket: int, i: int) -> bool {
    &&& 0 <= i < scores.len()
    &&& cumulative_weight(scores, i) <= ticket < cumulative_weight(scores, i + 1)
}

/// Participant `i` is the one that `random` selects among `scores`.
pub open spec fn is_selected(scores: Seq<u32>, random: Seq<u8>, i: int) -> bool {
    holds_ticket(scores, ticket_of(scores, random), i)
}

/// One more participant adds that participant's weight.
pub proof fn lemma_cumulative_step(scores: Seq<u32>, n: int)
    requires
        0 <= n < scores.len(),
    ensures
        cumulative_weight(scores, n + 1) == cumulative_weight(scores, n) + weight_of(scores[n]),
        cumulative_weight(scores, n) < cumulative_weight(scores, n + 1),
{
    assert(scores.take(n + 1).drop_last() =~= scores.take(n));
    assert(scores.take(n + 1).last() == scores[n]);
}

/// The cumulative weights begin at 0 and end at the total weight.
pub proof fn lemma_cumulative_ends(scores: Seq<u32>)
    ensures
        cumulative_weight(scores, 0) == 0,
        cumulative_weight(scores, scores.len() as int) == total_weight(scores),
{
    assert(scores.take(scores.len() as int) =~= scores);
    assert(scores.take(0).len() == 0);
}

/// The cumulative weights grow with the number of participants.
pub proof fn lemma_cumulative_monotonic(scores: Seq<u32>, m: int, n: int)
    requires
        0 <= m <= n <= scores.len(),
    ensures
        cumulative_weight(scores, m) <= cumulative_weight(scores, n),
        m < n ==> cumulative_weight(scores, m + 1) <= cumulative_weight(scores, n),
    decreases n - m,
{
    if m < n {
        lemma_cumulative_step(scores, n - 1);
        lemma_cumulative_monotonic(scores, m, n - 1);
    }
}

/// With `n` participants the cumulative weight is at least `n` and less than
/// `n` times 2^32.
pub proof fn lemma_cumulative_bounds(scores: Seq<u32>, n: int)
    requires
        0 <= n <= scores.len(),
    ensures
        n <= cumulative_weight(scores, n) <= n * 0xffff_ffff,
    decreases n,
{
    if n == 0 {
        lemma_cumulative_ends(scores);
    } else {
        lemma_cumulative_step(scores, n - 1);
        lemma_cumulative_bounds(scores, n - 1);
    }
}

/// A ticket has one holder at most, so the draw is decided by the scores and
/// the random output alone.
pub proof fn lemma_holder_unique(scores: Seq<u32>, ticket: int, i: int, j: int)
    requires
        holds_ticket(scores, ticket, i),
        holds_ticket(scores, ticket, j),
    ensures
        i == j,
{
    if i < j {
        lemma_cumulative_monotonic(scores, i, j);
    }
    if j < i {
        lemma_cumulative_monotonic(scores, j, i);
    }
}

/// Every ticket below the total weight has a holder, and the holder is the
/// earliest participant whose cumulative weight exceeds the ticket.
pub proof fn lemma_holder_is_earliest(scores: Seq<u32>, ticket: int, i: int, k: int)
    requires
        holds_ticket(scores, ticket, i),
        0 <= k < i,
    ensures
        cumulative_weight(scores, k + 1) <= ticket,
{
    lemma_cumulative_monotonic(scores, k, i);
}

/// The total weight of the scores, with the floor weight for each score of 0.
pub fn sum_weights(scores: &Vec<u32>) -> (total: u128)
    ensures
        total == total_weight(scores@),
        scores@.len() <= total,
{
    let mut total: u128 = 0;
    let mut i: usize = 0;
    while i < scores.len()
        invariant
            i <= scores@.len(),
            total == cumulative_weight(scores@, i as int),
        decreases scores@.len() - i,
    {
        proof {
            lemma_cumulative_step(scores@, i as int);
            lemma_cumulative_bounds(scores@, i as int);
            assert(i * 0xffff_ffff <= 0xffff_ffff_ffff_ffff * 0xffff_ffff) by (nonlinear_arith)
                requires
                    i <= 0xffff_ffff_ffff_ffff,
            ;
        }
        let weight: u32 = if scores[i] == 0 {
            FLOOR_WEIGHT
        } else {
            scores[i]
        };
        total = total + weight as u128;
        i = i + 1;
    }
    proof {
        lemma_cumulative_ends(scores@);
        lemma_cumulative_bounds(scores@, scores@.len() as int);
    }
    total
}

/// The value of a random output modulo `modulus`.
pub fn reduce_random(random: &[u8; 32], modulus: u128) -> (r: u128)
    requires
        0 < modulus <= 0xffff_ffff_ffff_ffff_ffff_ffff,
    ensures
        r == (random_value(random@) as int) % (modulus as int),
{
    let mut acc: u128 = 0;
    let mut i: usize = 0;
    proof {
        assert(random@.take(0).len() == 0);
        assert(random_value(random@.take(0)) == 0);
        lemma_small_mod(0, modulus as nat);
    }
    while i < 32
        invariant
            i <= 32,
            random@.len() == 32,
            0 < modulus <= 0xffff_ffff_ffff_ffff_ffff_ffff,
            acc == (random_value(random@.take(i as int)) as int) % (modulus as int),
            acc < modulus,
        decreases 32 - i,
    {
        let byte: u8 = random[i];
        proof {
            let m = modulus as int;
            let x = random_value(random@.take(i as int)) as int;
            assert(random@.take(i + 1).drop_last() =~= random@.take(i as int));
            assert(random@.take(i + 1).last() == byte);
            assert(random_value(random@.take(i + 1)) == x * 256 + byte);
            lemma_mul_mod_noop_left(x, 256, m);
            lemma_add_mod_noop(x * 256, byte as int, m);
            lemma_add_mod_noop((x % m) * 256, byte as int, m);
            assert(((x % m) * 256 + byte) % m == (x * 256 + byte) % m);
            assert(acc * 256 + byte <= 0xffff_ffff_ffff_ffff_ffff_ffff * 256 + 255);
        }
        acc = (acc * 256 + byte as u128) % modulus;
        i = i + 1;
    }
    assert(random@.take(32) =~= random@);
    acc
}

/// Selects the winner among the participants, whose scores are given in the
/// order in which they joined.
///
/// Each participant draws with the weight of its score. The random output,
/// taken modulo the total weight, is a ticket, and the winner is the one
/// participant in whose range of the cumulative weights the ticket falls: the
/// earliest whose cumulative weight exceeds it. The result is the winner's
/// place in the order of joining, and `None` exactly where nobody takes part.
pub fn select_winner(scores: &Vec<u32>, random: &[u8; 32]) -> (winner: Option<usize>)
    ensures
        winner is None <==> scores@.len() == 0,
        winner is Some ==> is_selected(scores@, random@, winner->0 as int),
{
    if scores.len() == 0 {
        return None;
    }
    let total: u128 = sum_weights(scores);
    proof {
        lemma_cumulative_bounds(scores@, scores@.len() as int);
        lemma_cumulative_ends(scores@);
        assert(scores@.len() * 0xffff_ffff <= 0xffff_ffff_ffff_ffff * 0xffff_ffff) by (nonlinear_arith)
            requires
                scores@.len() <= 0xffff_ffff_ffff_ffff,
        ;
    }
    let ticket: u128 = reduce_random(random, total);
    let last: usize = scores.len() - 1;
    let mut below: u128 = 0;
    let mut i: usize = 0;
    while i < last
        invariant
            i <= last,
            last + 1 == scores@.len(),
            below == cumulative_weight(scores@, i as int),
            below <= ticket,
            ticket == ticket_of(scores@, random@),
        decreases last - i,
    {
        proof {
            lemma_cumulative_step(scores@, i as int);
        }
        let weight: u32 = if scores[i] == 0 {
            FLOOR_WEIGHT
        } else {
            scores[i]
        };
        if ticket - below < weight as u128 {
            return Some(i);
        }
        below = below + weight as u128;
        i = i + 1;
    }
    Some(last)
}

} // verus!
