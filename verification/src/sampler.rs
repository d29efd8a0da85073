//! Candidate sampling: per iteration, a random sample size below the
//! dictionary length is drawn, then that many distinct words are drawn from
//! the dictionary without replacement, kept in the order they were drawn.
//!
//! Notes on the sampled space.  The sample size is drawn from
//! `[0, dictionary length)`, excluding the full dictionary, so a signature
//! using every word at once is never generated; this mirrors the historical
//! behaviour of the tool and is kept deliberately.  Samples are independent
//! across calls, so the same candidate may recur arbitrarily often and the
//! coverage of the combinatorial space is not uniform; that is accepted
//! sampling noise.

use vstd::prelude::*;

verus! {

/// rand's thread-local random generator, opaque to the verified code.
#[verifier::external_type_specification]
#[verifier::external_body]
pub struct ExThreadRng(rand::rngs::ThreadRng);

/// Relies on rand::thread_rng: a handle to the thread-local generator.
#[verifier::external_body]
fn new_rng() -> rand::rngs::ThreadRng {
    rand::thread_rng()
}

/// Relies on rand's `Rng::gen_range` over `0..n`: a value below `n`.  The
/// call panics on an empty range, so `n` must be positive.
#[verifier::external_body]
fn draw_sample_size(rng: &mut rand::rngs::ThreadRng, n: usize) -> (k: usize)
    requires
        n >= 1,
    ensures
        k < n,
{
    rand::Rng::gen_range(rng, 0..n)
}

/// Relies on rand's `IteratorRandom::choose_multiple` over `0..n`: `k`
/// pairwise-distinct values below `n` (reservoir sampling keeps values from
/// distinct iterator positions, and `0..n` yields distinct values).
#[verifier::external_body]
fn draw_distinct_indices(rng: &mut rand::rngs::ThreadRng, n: usize, k: usize) -> (r: Vec<usize>)
    requires
        k <= n,
    ensures
        r@.len() == k as nat,
        forall|i: int| 0 <= i < r@.len() ==> r@[i] < n,
        forall|i: int, j: int| 0 <= i < j < r@.len() ==> r@[i] != r@[j],
{
    rand::seq::IteratorRandom::choose_multiple(0..n, rng, k)
}

/// `words` is an ordered sample of `dict` drawn without replacement: the
/// words stand at pairwise-distinct dictionary positions, in some order.
pub open spec fn is_sample_of(dict: Seq<Seq<char>>, words: Seq<Seq<char>>) -> bool {
    exists|idxs: Seq<int>|
        {
            &&& idxs.len() == words.len()
            &&& (forall|i: int| 0 <= i < idxs.len() ==> 0 <= #[trigger] idxs[i] < dict.len())
            &&& (forall|i: int, j: int| 0 <= i < j < idxs.len() ==> idxs[i] != idxs[j])
            &&& (forall|i: int| 0 <= i < words.len() ==> #[trigger] words[i] == dict[idxs[i]])
        }
}

/// A candidate word list for a dictionary: a without-replacement sample
/// smaller than the whole dictionary.
pub open spec fn is_candidate_of(dict: Seq<Seq<char>>, words: Seq<Seq<char>>) -> bool {
    &&& is_sample_of(dict, words)
    &&& words.len() < dict.len()
}

/// Copies the dictionary words at the given pairwise-distinct positions, in
/// the given order.
fn pick_words(dict: &Vec<String>, idxs: &Vec<usize>) -> (r: Vec<String>)
    requires
        forall|i: int| 0 <= i < idxs@.len() ==> idxs@[i] < dict@.len(),
    ensures
        r.deep_view().len() == idxs@.len(),
        forall|i: int|
            0 <= i < idxs@.len() ==> #[trigger] r.deep_view()[i] == dict.deep_view()[idxs@[i] as int],
    {
    let mut out: Vec<String> = Vec::new();
    for pos in 0..idxs.len()
        invariant
            forall|i: int| 0 <= i < idxs@.len() ==> idxs@[i] < dict@.len(),
            out.deep_view().len() == pos as nat,
            forall|i: int|
                0 <= i < pos as int ==> #[trigger] out.deep_view()[i] == dict.deep_view()[idxs@[i] as int],
    {
        let word = dict[idxs[pos]].clone();
        assert(word@ == dict.deep_view()[idxs@[pos as int] as int]);
        let ghost prev = out.deep_view();
        out.push(word);
        assert(out.deep_view() =~= prev.push(word@));
    }
    out
}

/// Draws one candidate from the thread-local generator: a random sample
/// size `k` below the dictionary length, then `k` distinct dictionary words
/// in draw order.
pub fn sample_candidate(dict: &Vec<String>) -> (r: Vec<String>)
    requires
        dict@.len() >= 1,
    ensures
        is_candidate_of(dict.deep_view(), r.deep_view()),
{
    let mut rng = new_rng();
    let rng = &mut rng;
    let n = dict.len();
    let k = draw_sample_size(rng, n);
    let idxs = draw_distinct_indices(rng, n, k);
    let words = pick_words(dict, &idxs);
    proof {
        let picked: Seq<int> = Seq::new(idxs@.len(), |i: int| idxs@[i] as int);
        assert(is_sample_of(dict.deep_view(), words.deep_view())) by {
            assert(picked.len() == words.deep_view().len());
            assert(forall|i: int| 0 <= i < picked.len() ==> 0 <= #[trigger] picked[i] < dict.deep_view().len());
            assert(forall|i: int, j: int| 0 <= i < j < picked.len() ==> picked[i] != picked[j]);
            assert(forall|i: int|
                0 <= i < words.deep_view().len() ==> #[trigger] words.deep_view()[i] == dict.deep_view()[picked[i]]);
        }
    }
    words
}

} // verus!
