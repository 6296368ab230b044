//! How close two names are, and which of several candidates is closest.
//!
//! A score is carried as the bit pattern of an IEEE 754 double. Among
//! patterns with a clear sign bit the order of the patterns as integers is
//! the total order of the doubles they encode, so scores are compared as
//! integers.

use vstd::prelude::*;
use vstd::string::*;
use crate::ast::index_view;

verus! {

/// The bit pattern of the double that `strsim::jaro_winkler` returns for
/// the texts `a` and `b`.
pub uninterp spec fn jaro_winkler_score(a: Seq<char>, b: Seq<char>) -> u64;

/// Calls `strsim::jaro_winkler` and hands back the bits of its result.
///
/// Trusted: the result depends on the two texts alone, which is all that
/// the contract claims by naming it.
#[verifier::external_body]
fn jaro_winkler_bits(a: &str, b: &str) -> (bits: u64)
    ensures
        bits == jaro_winkler_score(a@, b@),
{
    strsim::jaro_winkler(a, b).to_bits()
}

/// Every bit of a double but its sign.
pub const MAGNITUDE_MASK: u64 = 0x7FFF_FFFF_FFFF_FFFF;

/// The bit pattern of the double nearest to 85 hundredths: a candidate
/// scoring less than this is not suggested.
pub const SIMILARITY_THRESHOLD: u64 = 0x3FEB_3333_3333_3333;

/// The absolute value of a double, on bit patterns: the sign bit is cleared.
pub open spec fn magnitude(bits: u64) -> u64 {
    bits & MAGNITUDE_MASK
}

/// The similarity of `candidate` to `target`: the absolute value of their
/// Jaro-Winkler score.
pub open spec fn similarity(target: Seq<char>, candidate: Seq<char>) -> u64 {
    magnitude(jaro_winkler_score(target, candidate))
}

/// The similarity of each candidate to `target`, in the candidates' order.
pub open spec fn similarities(target: Seq<char>, candidates: Seq<Seq<char>>) -> Seq<u64> {
    Seq::new(candidates.len(), |i: int| similarity(target, candidates[i]))
}

/// The position of the greatest of the first `n` scores; of several equally
/// great ones, the last.
pub open spec fn last_greatest(scores: Seq<u64>, n: nat) -> int
    decreases n,
{
    if n <= 1 {
        0
    } else {
        let before = last_greatest(scores, (n - 1) as nat);
        if scores[n - 1] >= scores[before] {
            n - 1
        } else {
            before
        }
    }
}

/// The candidate to suggest, given each candidate's score: the one with the
/// greatest score, the last of them if several share it, unless that score
/// is under the threshold or there is no candidate at all.
pub open spec fn best_match(scores: Seq<u64>) -> Option<int> {
    if scores.len() == 0 {
        None
    } else {
        let best = last_greatest(scores, scores.len());
        if scores[best] < SIMILARITY_THRESHOLD {
            None
        } else {
            Some(best)
        }
    }
}

/// `last_greatest` is a position among the first `n`, no score among them is
/// greater than the one it names, and every later one among them is less.
pub proof fn lemma_last_greatest(scores: Seq<u64>, n: nat)
    requires
        1 <= n <= scores.len(),
    ensures
        0 <= last_greatest(scores, n) < n,
        forall|j: int| 0 <= j < n ==> #[trigger] scores[j] <= scores[last_greatest(scores, n)],
        forall|j: int|
            last_greatest(scores, n) < j < n ==> #[trigger] scores[j] < scores[last_greatest(
                scores,
                n,
            )],
    decreases n,
{
    if n > 1 {
        lemma_last_greatest(scores, (n - 1) as nat);
    }
}

/// A candidate is suggested if and only if some score reaches the
/// threshold; the suggested one then has the greatest score of all, it
/// reaches the threshold, and every candidate after it scores less.
pub proof fn lemma_best_match(scores: Seq<u64>)
    ensures
        best_match(scores) is Some <==> exists|j: int|
            0 <= j < scores.len() && #[trigger] scores[j] >= SIMILARITY_THRESHOLD,
        best_match(scores) matches Some(best) ==> {
            &&& 0 <= best < scores.len()
            &&& scores[best] >= SIMILARITY_THRESHOLD
            &&& forall|j: int| 0 <= j < scores.len() ==> #[trigger] scores[j] <= scores[best]
            &&& forall|j: int| best < j < scores.len() ==> #[trigger] scores[j] < scores[best]
        },
{
    if scores.len() > 0 {
        lemma_last_greatest(scores, scores.len());
    }
}

/// The similarity of `candidate` to `target`.
pub fn similarity_score(target: &str, candidate: &str) -> (score: u64)
    ensures
        score == similarity(target@, candidate@),
{
    jaro_winkler_bits(target, candidate) & MAGNITUDE_MASK
}

/// Picks the candidate to suggest from the candidates' scores.
pub fn select_best(scores: &Vec<u64>) -> (best: Option<usize>)
    ensures
        best_match(scores@) == index_view(best),
        best matches Some(i) ==> i < scores@.len(),
{
    if scores.len() == 0 {
        return None;
    }
    let mut best: usize = 0;
    let mut i: usize = 1;
    while i < scores.len()
        invariant
            1 <= i <= scores.len(),
            best == last_greatest(scores@, i as nat),
            0 <= best < i,
        decreases scores.len() - i,
    {
        if scores[i] >= scores[best] {
            best = i;
        }
        i += 1;
    }
    if scores[best] < SIMILARITY_THRESHOLD {
        None
    } else {
        Some(best)
    }
}

/// Scores every candidate against `target` and picks the one to suggest.
pub fn most_similar(target: &str, candidates: &Vec<String>) -> (best: Option<usize>)
    ensures
        best_match(similarities(target@, candidates@.map_values(|c: String| c@))) == index_view(
            best,
        ),
        best matches Some(i) ==> i < candidates@.len(),
{
    let ghost texts = candidates@.map_values(|c: String| c@);
    let mut scores: Vec<u64> = Vec::new();
    let mut i: usize = 0;
    while i < candidates.len()
        invariant
            i <= candidates.len(),
            texts == candidates@.map_values(|c: String| c@),
            scores@.len() == i,
            forall|j: int| 0 <= j < i ==> scores@[j] == similarity(target@, texts[j]),
        decreases candidates.len() - i,
    {
        let score = similarity_score(target, candidates[i].as_str());
        scores.push(score);
        i += 1;
    }
    assert(scores@ =~= similarities(target@, texts));
    select_best(&scores)
}

} // verus!
