//! Random sampling of candidates: a full shuffle, cut to the requested
//! number of files.
//!
//! The shuffle is the one of the `rand` crate, run on the positions of the
//! candidates. It moves items by position only, so the order it leaves the
//! positions in is the order it would leave the candidates in.

use vstd::prelude::*;
use rand::rngs::StdRng;
use rand::seq::SliceRandom;
use rand::SeedableRng;
use crate::listing::{candidate_names_are_unique, CandidateFile, CandidateView};

verus! {

/// What `SliceRandom::shuffle` of the `rand` crate makes of `items` when
/// it draws from the generator `StdRng::seed_from_u64(seed)`.
pub uninterp spec fn seeded_shuffle(seed: u64, items: Seq<usize>) -> Seq<usize>;

/// Shuffles `items` in place with `SliceRandom::shuffle`, drawing from a
/// `StdRng` made by `SeedableRng::seed_from_u64`.
///
/// The generator is a function of the seed alone, and the shuffle does
/// nothing but swap items at places that it draws from the generator. So
/// the outcome is a rearrangement of the input, and seed and input
/// determine it.
#[verifier::external_body]
fn shuffle_seeded(items: &mut Vec<usize>, seed: u64)
    ensures
        final(items)@ == seeded_shuffle(seed, old(items)@),
        final(items)@.to_multiset() == old(items)@.to_multiset(),
{
    let mut rng = StdRng::seed_from_u64(seed);
    items.shuffle(&mut rng);
}

/// Shuffles `items` in place with `SliceRandom::shuffle`, drawing from a
/// `StdRng` made by `SeedableRng::from_entropy`.
///
/// The generator is seeded by the operating system, so nothing is known
/// of the outcome but that it is a rearrangement of the input.
/// `from_entropy` panics on a system that cannot supply random bytes.
#[verifier::external_body]
fn shuffle_from_entropy(items: &mut Vec<usize>)
    ensures
        final(items)@.to_multiset() == old(items)@.to_multiset(),
{
    let mut rng = StdRng::from_entropy();
    items.shuffle(&mut rng);
}

/// The positions `0, 1, ..., n - 1` in rising order.
pub open spec fn identity_order(n: nat) -> Seq<usize> {
    Seq::new(n, |i: int| i as usize)
}

/// Whether every position that `order` names is one of `n` positions.
pub open spec fn names_positions(order: Seq<usize>, n: nat) -> bool {
    forall|i: int| 0 <= i < order.len() ==> order[i] < n
}

/// Whether `order` names each of the positions `0 .. n` exactly once.
pub open spec fn is_order(order: Seq<usize>, n: nat) -> bool {
    &&& order.len() == n
    &&& names_positions(order, n)
    &&& order.no_duplicates()
}

/// The order that a generator seeded with `seed` shuffles `n` positions into.
pub open spec fn seeded_order(seed: u64, n: nat) -> Seq<usize> {
    seeded_shuffle(seed, identity_order(n))
}

/// The candidates taken in the given order of their positions.
pub open spec fn arranged(candidates: Seq<CandidateView>, order: Seq<usize>) -> Seq<CandidateView> {
    Seq::new(order.len(), |i: int| candidates[order[i] as int])
}

/// The size of a sample: the requested count, or all there is if that is less.
pub open spec fn sample_size(count: nat, available: nat) -> nat {
    if count <= available {
        count
    } else {
        available
    }
}

/// The sample that a given order of the positions yields: the candidates
/// in that order, cut after the first `count`.
pub open spec fn sample_in_order(
    candidates: Seq<CandidateView>,
    order: Seq<usize>,
    count: nat,
) -> Seq<CandidateView> {
    arranged(candidates, order).take(sample_size(count, order.len()) as int)
}

/// Whether `sample` is a sample of `count` files among `candidates`: the
/// start of the candidates in some order of their positions. With a seed
/// the order is the one that the seed determines.
pub open spec fn is_sample(
    sample: Seq<CandidateView>,
    candidates: Seq<CandidateView>,
    count: nat,
    seed: Option<u64>,
) -> bool {
    exists|order: Seq<usize>|
        {
            &&& #[trigger] is_order(order, candidates.len())
            &&& seed matches Some(s) ==> order == seeded_order(s, candidates.len())
            &&& sample == sample_in_order(candidates, order, count)
        }
}

proof fn lemma_rearranged_identity_is_order(order: Seq<usize>, n: nat)
    requires
        n <= usize::MAX,
        order.to_multiset() == identity_order(n).to_multiset(),
    ensures
        is_order(order, n),
{
    let identity = identity_order(n);
    order.to_multiset_ensures();
    identity.to_multiset_ensures();
    assert forall|i: int| 0 <= i < order.len() implies order[i] < n by {
        assert(identity.to_multiset().count(order[i]) > 0);
    }
    identity.lemma_multiset_has_no_duplicates();
    order.lemma_multiset_has_no_duplicates_conv();
}

fn rising_order(n: usize) -> (order: Vec<usize>)
    ensures
        order@ == identity_order(n as nat),
{
    let mut order: Vec<usize> = Vec::new();
    let mut i: usize = 0;
    while i < n
        invariant
            i <= n,
            order@ == identity_order(i as nat),
        decreases n - i,
    {
        order.push(i);
        i += 1;
    }
    order
}

/// Draws an order of `n` positions: the one the seed determines, or with
/// no seed one that cannot be foretold.
pub fn shuffled_order(n: usize, seed: Option<u64>) -> (order: Vec<usize>)
    ensures
        is_order(order@, n as nat),
        seed matches Some(s) ==> order@ == seeded_order(s, n as nat),
{
    let mut order = rising_order(n);
    match seed {
        Some(s) => shuffle_seeded(&mut order, s),
        None => shuffle_from_entropy(&mut order),
    }
    proof {
        lemma_rearranged_identity_is_order(order@, n as nat);
    }
    order
}

fn positions_exist(order: &Vec<usize>, n: usize) -> (all: bool)
    ensures
        all == names_positions(order@, n as nat),
{
    let mut i: usize = 0;
    while i < order.len()
        invariant
            i <= order.len(),
            forall|k: int| 0 <= k < i ==> order[k] < n,
        decreases order.len() - i,
    {
        if order[i] >= n {
            return false;
        }
        i += 1;
    }
    true
}

fn take_in_order(
    candidates: &Vec<CandidateFile>,
    order: &Vec<usize>,
    count: usize,
) -> (sample: Vec<CandidateFile>)
    requires
        names_positions(order@, candidates.len() as nat),
    ensures
        sample.deep_view() == sample_in_order(candidates.deep_view(), order@, count as nat),
{
    let size = if count <= order.len() {
        count
    } else {
        order.len()
    };
    let mut sample: Vec<CandidateFile> = Vec::new();
    let mut i: usize = 0;
    while i < size
        invariant
            i <= size <= order.len(),
            names_positions(order@, candidates.len() as nat),
            sample.deep_view() == arranged(candidates.deep_view(), order@).take(i as int),
        decreases size - i,
    {
        let ghost before = sample.deep_view();
        let chosen = candidates[order[i]].clone();
        sample.push(chosen);
        assert(sample.deep_view() =~= before.push(chosen@));
        i += 1;
    }
    sample
}

/// Takes the candidates in the given order of their positions and keeps
/// the first `count` of them, or all of them if there are fewer.
///
/// The answer is `None` if the order names a position at which there is
/// no candidate.
pub fn select_in_order(
    candidates: &Vec<CandidateFile>,
    order: &Vec<usize>,
    count: usize,
) -> (sample: Option<Vec<CandidateFile>>)
    ensures
        match sample {
            Some(sample) => names_positions(order@, candidates.len() as nat)
                && sample.deep_view() == sample_in_order(
                candidates.deep_view(),
                order@,
                count as nat,
            ),
            None => !names_positions(order@, candidates.len() as nat),
        },
{
    if positions_exist(order, candidates.len()) {
        Some(take_in_order(candidates, order, count))
    } else {
        None
    }
}

/// Selects `count` of the candidates at random, in random order.
///
/// All candidates are shuffled and the first `count` are kept; asking for
/// more than there are yields all of them. With a seed the outcome is the
/// same on every call.
pub fn sample(
    candidates: &Vec<CandidateFile>,
    count: usize,
    seed: Option<u64>,
) -> (sample: Vec<CandidateFile>)
    ensures
        is_sample(sample.deep_view(), candidates.deep_view(), count as nat, seed),
        sample.len() == sample_size(count as nat, candidates.len() as nat),
{
    let order = shuffled_order(candidates.len(), seed);
    let sample = take_in_order(candidates, &order, count);
    assert(is_order(order@, candidates.deep_view().len()));
    assert(sample.deep_view().len() == sample.len());
    sample
}

/// With a seed, sampling is reproducible: any two samples of the same
/// candidates, drawn for the same count with the same seed, are the same
/// files in the same order.
pub proof fn lemma_seeded_sample_is_reproducible(
    candidates: Seq<CandidateView>,
    count: nat,
    seed: u64,
    first: Seq<CandidateView>,
    second: Seq<CandidateView>,
)
    requires
        is_sample(first, candidates, count, Some(seed)),
        is_sample(second, candidates, count, Some(seed)),
    ensures
        first == second,
{
}

/// Whether `sample` holds the candidates at the given positions, none of
/// which is taken twice.
pub open spec fn is_drawn_at(
    sample: Seq<CandidateView>,
    candidates: Seq<CandidateView>,
    positions: Seq<int>,
) -> bool {
    &&& positions.len() == sample.len()
    &&& positions.no_duplicates()
    &&& forall|i: int|
        0 <= i < sample.len() ==> 0 <= positions[i] < candidates.len() && sample[i]
            == candidates[positions[i]]
}

/// A sample has the requested number of files, or as many as there are
/// candidates if that is less; each of its files is the candidate at some
/// position, and no position is taken twice.
pub proof fn lemma_sample_draws_distinct_candidates(
    candidates: Seq<CandidateView>,
    count: nat,
    seed: Option<u64>,
    sample: Seq<CandidateView>,
)
    requires
        is_sample(sample, candidates, count, seed),
    ensures
        sample.len() == sample_size(count, candidates.len()),
        exists|positions: Seq<int>| is_drawn_at(sample, candidates, positions),
{
    let order = choose|order: Seq<usize>|
        {
            &&& #[trigger] is_order(order, candidates.len())
            &&& seed matches Some(s) ==> order == seeded_order(s, candidates.len())
            &&& sample == sample_in_order(candidates, order, count)
        };
    let positions = Seq::new(sample.len(), |i: int| order[i] as int);
    assert(is_drawn_at(sample, candidates, positions));
}

/// A sample of files with different names has files with different names.
pub proof fn lemma_sample_keeps_names_unique(
    candidates: Seq<CandidateView>,
    count: nat,
    seed: Option<u64>,
    sample: Seq<CandidateView>,
)
    requires
        is_sample(sample, candidates, count, seed),
        candidate_names_are_unique(candidates),
    ensures
        candidate_names_are_unique(sample),
{
    let order = choose|order: Seq<usize>|
        {
            &&& #[trigger] is_order(order, candidates.len())
            &&& seed matches Some(s) ==> order == seeded_order(s, candidates.len())
            &&& sample == sample_in_order(candidates, order, count)
        };
    assert forall|i: int, j: int| 0 <= i < j < sample.len() implies #[trigger] sample[i].name
        != #[trigger] sample[j].name by {
        // Two places of the order name two positions, and so two names.
        assert(order[i] != order[j]);
    }
}

/// Asking for at least as many files as there are candidates yields all
/// of them, each once: nothing is left out and nothing is made up.
pub proof fn lemma_sample_of_all_is_a_rearrangement(
    candidates: Seq<CandidateView>,
    count: nat,
    seed: Option<u64>,
    sample: Seq<CandidateView>,
)
    requires
        is_sample(sample, candidates, count, seed),
        count >= candidates.len(),
    ensures
        sample.len() == candidates.len(),
        sample.to_multiset() == candidates.to_multiset(),
{
    let order = choose|order: Seq<usize>|
        {
            &&& #[trigger] is_order(order, candidates.len())
            &&& seed matches Some(s) ==> order == seeded_order(s, candidates.len())
            &&& sample == sample_in_order(candidates, order, count)
        };
    assert(sample =~= arranged(candidates, order));
    lemma_arranged_is_a_rearrangement(candidates, order);
}

/// Asking for no file yields an empty sample.
pub proof fn lemma_sample_of_none_is_empty(
    candidates: Seq<CandidateView>,
    seed: Option<u64>,
    sample: Seq<CandidateView>,
)
    requires
        is_sample(sample, candidates, 0, seed),
    ensures
        sample == Seq::<CandidateView>::empty(),
{
}

/// Taking all candidates in an order of their positions rearranges them.
proof fn lemma_arranged_is_a_rearrangement(candidates: Seq<CandidateView>, order: Seq<usize>)
    requires
        is_order(order, candidates.len()),
    ensures
        arranged(candidates, order).to_multiset() == candidates.to_multiset(),
    decreases candidates.len(),
{
    let n = candidates.len();
    let whole = arranged(candidates, order);
    lemma_order_is_bounded(order, n);
    if n == 0 {
        assert(whole =~= candidates);
    } else {
        // The last candidate is taken at exactly one place of the order.
        let last = (n - 1) as usize;
        lemma_order_names_every_position(order, n, last);
        let at = choose|at: int| 0 <= at < order.len() && order[at] == last;
        let fewer = candidates.drop_last();
        let rest = order.remove(at);
        // Without that place, the order is an order of the other candidates.
        assert forall|i: int| 0 <= i < rest.len() implies rest[i] < n - 1 by {}
        assert(rest.no_duplicates());
        lemma_arranged_is_a_rearrangement(fewer, rest);
        assert(whole.remove(at) =~= arranged(fewer, rest));
        // Putting the last candidate back gives all of them on both sides.
        whole.to_multiset_ensures();
        fewer.to_multiset_ensures();
        assert(whole.to_multiset().count(whole[at]) > 0);
        assert(fewer.push(candidates.last()) =~= candidates);
    }
}

/// An order of `n` positions names every one of them.
proof fn lemma_order_names_every_position(order: Seq<usize>, n: nat, position: usize)
    requires
        is_order(order, n),
        position < n,
    ensures
        exists|at: int| 0 <= at < order.len() && order[at] == position,
{
    // The positions that the order names are `n` different numbers below `n`.
    lemma_order_is_bounded(order, n);
    let named = order.to_set();
    let below = Set::new(|p: usize| p < n);
    order.unique_seq_to_set();
    assert(named.subset_of(below)) by {
        assert forall|p: usize| named.contains(p) implies below.contains(p) by {
            let at = choose|at: int| 0 <= at < order.len() && order[at] == p;
        }
    }
    lemma_positions_below(n);
    vstd::set_lib::lemma_subset_equality(named, below);
    assert(below.contains(position));
}

/// No order is longer than there are positions.
proof fn lemma_order_is_bounded(order: Seq<usize>, n: nat)
    requires
        is_order(order, n),
    ensures
        n <= usize::MAX + 1,
{
    let named = order.to_set();
    let every = Set::new(|p: usize| p < usize::MAX + 1);
    order.unique_seq_to_set();
    lemma_positions_below((usize::MAX + 1) as nat);
    vstd::set_lib::lemma_len_subset(named, every);
}

/// There are `n` positions below `n`.
proof fn lemma_positions_below(n: nat)
    requires
        n <= usize::MAX + 1,
    ensures
        Set::new(|p: usize| p < n).finite(),
        Set::new(|p: usize| p < n).len() == n,
    decreases n,
{
    let below = Set::new(|p: usize| p < n);
    if n == 0 {
        assert(below =~= Set::<usize>::empty());
    } else {
        let fewer = Set::new(|p: usize| p < n - 1);
        lemma_positions_below((n - 1) as nat);
        assert(below =~= fewer.insert((n - 1) as usize));
    }
}

} // verus!
