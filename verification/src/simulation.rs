use vstd::prelude::*;

use crate::hair::HairStrand;

verus! {

/// What one simulation step did: how many strands it cut and how many
/// debris segments it added.
#[derive(Clone, Copy, Debug, PartialEq, Eq)]
pub struct StepSummary {
    pub strands_cut_this_step: usize,
    pub debris_segments_created: usize,
}

/// Among the first `n` positions of `before` and `after`, the number at
/// which the length after is smaller than the length before.
pub open spec fn count_shortened(before: Seq<usize>, after: Seq<usize>, n: nat) -> nat
    decreases n,
{
    if n == 0 {
        0
    } else {
        count_shortened(before, after, (n - 1) as nat) + if after[n - 1] < before[n - 1] {
            1nat
        } else {
            0nat
        }
    }
}

/// The number of positions two sequences have in common when they are
/// walked side by side.
pub open spec fn paired_len<A, B>(a: Seq<A>, b: Seq<B>) -> nat {
    if a.len() < b.len() {
        a.len()
    } else {
        b.len()
    }
}

/// A count of shortened strands never exceeds the number of strands compared.
pub proof fn lemma_count_shortened_bounded(before: Seq<usize>, after: Seq<usize>, n: nat)
    ensures
        count_shortened(before, after, n) <= n,
    decreases n,
{
    if n > 0 {
        lemma_count_shortened_bounded(before, after, (n - 1) as nat);
    }
}

/// The count of shortened strands is the number of positions `i` below `n`
/// at which the length after is smaller than the length before.
pub proof fn law_count_shortened_counts_shortened_positions(
    before: Seq<usize>,
    after: Seq<usize>,
    n: nat,
)
    ensures
        count_shortened(before, after, n) == Seq::new(n, |i: int| i).filter(
            |i: int| after[i] < before[i],
        ).len(),
    decreases n,
{
    reveal(Seq::filter);
    if n > 0 {
        law_count_shortened_counts_shortened_positions(before, after, (n - 1) as nat);
        assert(Seq::new(n, |i: int| i).drop_last() =~= Seq::new((n - 1) as nat, |i: int| i));
    }
}

/// Strands whose attached length did not go down are never counted as cut.
pub proof fn lemma_unshortened_count_zero(before: Seq<usize>, after: Seq<usize>, n: nat)
    requires
        forall|i: int| 0 <= i < n ==> #[trigger] after[i] >= before[i],
    ensures
        count_shortened(before, after, n) == 0,
    decreases n,
{
    if n > 0 {
        assert(after[n - 1] >= before[n - 1]);
        lemma_unshortened_count_zero(before, after, (n - 1) as nat);
    }
}

/// Among the first `n` strands, the number with fewer than `full` nodes
/// attached.
pub open spec fn count_cut<V>(strands: Seq<HairStrand<V>>, full: usize, n: nat) -> nat
    decreases n,
{
    if n == 0 {
        0
    } else {
        count_cut(strands, full, (n - 1) as nat) + if strands[n - 1].active_len < full {
            1nat
        } else {
            0nat
        }
    }
}

/// The count of cut strands among the first `n` is the number of those
/// strands with fewer than `full` nodes attached.
pub proof fn law_count_cut_counts_short_strands<V>(strands: Seq<HairStrand<V>>, full: usize, n: nat)
    requires
        n <= strands.len(),
    ensures
        count_cut(strands, full, n) == strands.take(n as int).filter(
            |s: HairStrand<V>| s.active_len < full,
        ).len(),
    decreases n,
{
    reveal(Seq::filter);
    if n > 0 {
        law_count_cut_counts_short_strands(strands, full, (n - 1) as nat);
        assert(strands.take(n as int).drop_last() =~= strands.take(n - 1));
    }
}

/// A count of cut strands never exceeds the number of strands counted.
pub proof fn lemma_count_cut_bounded<V>(strands: Seq<HairStrand<V>>, full: usize, n: nat)
    ensures
        count_cut(strands, full, n) <= n,
    decreases n,
{
    if n > 0 {
        lemma_count_cut_bounded(strands, full, (n - 1) as nat);
    }
}

/// How many strands have been cut: those with fewer than `nodes_per_strand`
/// nodes attached.
pub fn count_cut_strands<V>(strands: &[HairStrand<V>], nodes_per_strand: usize) -> (n: usize)
    ensures
        n == count_cut(strands@, nodes_per_strand, strands@.len()),
        n == strands@.filter(|s: HairStrand<V>| s.active_len < nodes_per_strand).len(),
        n <= strands@.len(),
{
    let mut n: usize = 0;
    let mut i: usize = 0;
    while i < strands.len()
        invariant
            i <= strands@.len(),
            n == count_cut(strands@, nodes_per_strand, i as nat),
        decreases strands@.len() - i,
    {
        proof {
            lemma_count_cut_bounded(strands@, nodes_per_strand, i as nat);
        }
        if strands[i].active_len < nodes_per_strand {
            n = n + 1;
        }
        i = i + 1;
    }
    proof {
        lemma_count_cut_bounded(strands@, nodes_per_strand, strands@.len());
        law_count_cut_counts_short_strands(strands@, nodes_per_strand, strands@.len());
        assert(strands@.take(strands@.len() as int) =~= strands@);
    }
    n
}

/// The attached length of each strand, in order.
pub fn active_lengths<V>(strands: &[HairStrand<V>]) -> (lens: Vec<usize>)
    ensures
        lens@.len() == strands@.len(),
        forall|i: int| 0 <= i < strands@.len() ==> #[trigger] lens@[i] == strands@[i].active_len,
{
    let mut lens: Vec<usize> = Vec::with_capacity(strands.len());
    let mut i: usize = 0;
    while i < strands.len()
        invariant
            i <= strands@.len(),
            lens@.len() == i,
            forall|j: int| 0 <= j < i ==> #[trigger] lens@[j] == strands@[j].active_len,
        decreases strands@.len() - i,
    {
        lens.push(strands[i].active_len);
        i = i + 1;
    }
    lens
}

/// Summarises a step from the strands' attached lengths before and after it
/// (compared position by position) and the number of debris segments before
/// and after it. A debris count that went down counts as none created.
pub fn summarize_step(
    before: &[usize],
    after: &[usize],
    debris_before: usize,
    debris_after: usize,
) -> (s: StepSummary)
    ensures
        s.strands_cut_this_step == count_shortened(before@, after@, paired_len(before@, after@)),
        s.strands_cut_this_step == Seq::new(paired_len(before@, after@), |i: int| i).filter(
            |i: int| after@[i] < before@[i],
        ).len(),
        s.strands_cut_this_step <= paired_len(before@, after@),
        s.debris_segments_created == (if debris_after >= debris_before {
            debris_after - debris_before
        } else {
            0
        }),
{
    let n = if before.len() < after.len() {
        before.len()
    } else {
        after.len()
    };
    let mut cut: usize = 0;
    let mut i: usize = 0;
    while i < n
        invariant
            i <= n,
            n == paired_len(before@, after@),
            cut == count_shortened(before@, after@, i as nat),
        decreases n - i,
    {
        proof {
            lemma_count_shortened_bounded(before@, after@, i as nat);
        }
        if after[i] < before[i] {
            cut = cut + 1;
        }
        i = i + 1;
    }
    proof {
        lemma_count_shortened_bounded(before@, after@, n as nat);
        law_count_shortened_counts_shortened_positions(before@, after@, n as nat);
    }
    StepSummary {
        strands_cut_this_step: cut,
        debris_segments_created: debris_after.saturating_sub(debris_before),
    }
}

} // verus!
