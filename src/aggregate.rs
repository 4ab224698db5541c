use vstd::prelude::*;
use crate::filtering::{combine_keeps, kept};
use crate::plot_data::{grouped, PlotSeries};

verus! {

/// The samples, among `n`, that every keep-vector of `keeps` keeps.
pub open spec fn kept_by_all(keeps: Seq<Vec<bool>>, n: nat) -> Seq<bool> {
    Seq::new(n, |i: int| forall|k: int| 0 <= k < keeps.len() ==> (#[trigger] keeps[k])@[i])
}

/// The text of each legend.
pub open spec fn legend_names(legends: Seq<String>) -> Seq<Seq<char>> {
    legends.map_values(|l: String| l@)
}

proof fn lemma_kept_len<A, B>(a: Seq<A>, b: Seq<B>, mask: Seq<bool>)
    requires
        a.len() == b.len(),
    ensures
        kept(a, mask).len() == kept(b, mask).len(),
    decreases a.len(),
{
    if a.len() > 0 {
        lemma_kept_len(a.drop_last(), b.drop_last(), mask);
    }
}

proof fn lemma_kept_names(legends: Seq<String>, mask: Seq<bool>)
    ensures
        legend_names(kept(legends, mask)) == kept(legend_names(legends), mask),
    decreases legends.len(),
{
    if legends.len() > 0 {
        lemma_kept_names(legends.drop_last(), mask);
        assert(legend_names(legends).drop_last() =~= legend_names(legends.drop_last()));
        let prev = kept(legends.drop_last(), mask);
        if mask[legends.len() - 1] {
            assert(legend_names(prev.push(legends.last())) =~= legend_names(prev).push(legends.last()@));
        }
    }
}

/// Keeps the samples that every keep-vector keeps (filters, and the complements of
/// outlier flags), then groups the kept points by the legend of their sample.
pub fn group_kept<P: Copy>(points: &Vec<P>, legends: &Vec<String>, keeps: &Vec<Vec<bool>>) -> (r: PlotSeries<P>)
    requires
        points@.len() == legends@.len(),
        forall|k: int| 0 <= k < keeps@.len() ==> (#[trigger] keeps@[k])@.len() == points@.len(),
    ensures
        r.wf(),
        r@ == grouped(
            kept(points@, kept_by_all(keeps@, points@.len())),
            kept(legend_names(legends@), kept_by_all(keeps@, points@.len())),
            kept(points@, kept_by_all(keeps@, points@.len())).len(),
        ),
{
    let mask = combine_keeps(points.len(), keeps);
    assert(mask@ =~= kept_by_all(keeps@, points@.len()));
    let kept_points = mask.apply_copied(points);
    let kept_legends = mask.apply(legends);
    proof {
        let m = mask@;
        assert(legend_names(kept_legends@) =~= legend_names(kept(legends@, m))) by {
            assert forall|i: int| 0 <= i < kept_legends@.len() implies kept_legends@[i]@ == kept(legends@, m)[i]@ by {
                assert(cloned(kept(legends@, m)[i], kept_legends@[i]));
            }
        }
        lemma_kept_names(legends@, m);
        lemma_kept_len(points@, legends@, m);
    }
    PlotSeries::group(&kept_points, &kept_legends)
}

} // verus!
