use vstd::prelude::*;

verus! {

/// Buckets of points, one per legend, in the order legends were first seen.
pub type Buckets<P> = Seq<(Seq<char>, Seq<P>)>;

/// Position of the bucket of `legend`, or -1 when there is none.
pub open spec fn find_legend<P>(b: Buckets<P>, legend: Seq<char>) -> int
    decreases b.len(),
{
    if b.len() == 0 {
        -1
    } else if b.last().0 == legend {
        b.len() - 1
    } else {
        find_legend(b.drop_last(), legend)
    }
}

/// Legends are pairwise distinct.
pub open spec fn distinct_legends<P>(b: Buckets<P>) -> bool {
    forall|i: int, j: int| 0 <= i < j < b.len() ==> b[i].0 != b[j].0
}

/// `b` after appending `point` to the bucket of `legend`, opened if absent.
pub open spec fn bucket_add<P>(b: Buckets<P>, legend: Seq<char>, point: P) -> Buckets<P> {
    let i = find_legend(b, legend);
    if i >= 0 {
        b.update(i, (legend, b[i].1.push(point)))
    } else {
        b.push((legend, seq![point]))
    }
}

/// The buckets obtained by adding the first `n` points, each under its legend.
pub open spec fn grouped<P>(points: Seq<P>, legends: Seq<Seq<char>>, n: nat) -> Buckets<P>
    decreases n,
{
    if n == 0 {
        Seq::empty()
    } else {
        let m = (n - 1) as nat;
        bucket_add(grouped(points, legends, m), legends[m as int], points[m as int])
    }
}

/// The points among the first `n` whose legend is `legend`, in the order they come.
pub open spec fn points_of<P>(points: Seq<P>, legends: Seq<Seq<char>>, legend: Seq<char>, n: nat) -> Seq<P>
    decreases n,
{
    if n == 0 {
        Seq::empty()
    } else {
        let m = (n - 1) as nat;
        let prev = points_of(points, legends, legend, m);
        if legends[m as int] == legend {
            prev.push(points[m as int])
        } else {
            prev
        }
    }
}

/// The points stored under `legend`: empty when there is no such bucket.
pub open spec fn bucket_of<P>(b: Buckets<P>, legend: Seq<char>) -> Seq<P> {
    let i = find_legend(b, legend);
    if i >= 0 {
        b[i].1
    } else {
        Seq::empty()
    }
}

/// Points of one graph grouped by legend: each legend owns the list of its points in
/// the order they were added.
pub struct PlotSeries<P> {
    data: Vec<(String, Vec<P>)>,
}

impl<P> View for PlotSeries<P> {
    type V = Buckets<P>;

    closed spec fn view(&self) -> Buckets<P> {
        Seq::new(self.data@.len(), |i: int| (self.data@[i].0@, self.data@[i].1@))
    }
}

proof fn lemma_find_legend_bounds<P>(b: Buckets<P>, legend: Seq<char>)
    ensures
        -1 <= find_legend(b, legend) < b.len(),
        find_legend(b, legend) >= 0 ==> b[find_legend(b, legend)].0 == legend,
        find_legend(b, legend) < 0 ==> forall|i: int| 0 <= i < b.len() ==> b[i].0 != legend,
    decreases b.len(),
{
    if b.len() > 0 {
        lemma_find_legend_bounds(b.drop_last(), legend);
        if find_legend(b, legend) < 0 {
            assert forall|i: int| 0 <= i < b.len() implies b[i].0 != legend by {
                if i < b.len() - 1 {
                    assert(b.drop_last()[i] == b[i]);
                }
            }
        }
    }
}

proof fn lemma_find_legend_unique<P>(b: Buckets<P>, legend: Seq<char>, k: int)
    requires
        distinct_legends(b),
        0 <= k < b.len(),
        b[k].0 == legend,
    ensures
        find_legend(b, legend) == k,
    decreases b.len(),
{
    if k < b.len() - 1 {
        lemma_find_legend_unique(b.drop_last(), legend, k);
    }
}

impl<P: Copy> PlotSeries<P> {
    /// Legends are pairwise distinct.
    pub closed spec fn wf(&self) -> bool {
        distinct_legends(self@)
    }

    /// No legend, no point.
    pub fn new() -> (r: PlotSeries<P>)
        ensures
            r@ == Seq::<(Seq<char>, Seq<P>)>::empty(),
            r.wf(),
    {
        let r = PlotSeries { data: Vec::new() };
        assert(r@ =~= Seq::<(Seq<char>, Seq<P>)>::empty());
        r
    }

    /// Position of the bucket of `legend`, if any.
    fn position(&self, legend: &String) -> (r: Option<usize>)
        requires
            self.wf(),
        ensures
            r is Some <==> find_legend(self@, legend@) >= 0,
            r is Some ==> r->Some_0 == find_legend(self@, legend@),
    {
        proof {
            lemma_find_legend_bounds(self@, legend@);
        }
        let mut i: usize = 0;
        while i < self.data.len()
            invariant
                self.wf(),
                i <= self.data@.len(),
                forall|j: int| 0 <= j < i ==> self@[j].0 != legend@,
            decreases self.data@.len() - i,
        {
            if self.data[i].0 == *legend {
                proof {
                    lemma_find_legend_unique(self@, legend@, i as int);
                }
                return Some(i);
            }
            i += 1;
        }
        None
    }

    /// Appends `point` to the bucket of `legend`, which is opened if absent.
    pub fn add(&mut self, legend: String, point: P)
        requires
            old(self).wf(),
        ensures
            final(self).wf(),
            final(self)@ == bucket_add(old(self)@, legend@, point),
    {
        proof {
            lemma_find_legend_bounds(self@, legend@);
        }
        let ghost before = self@;
        match self.position(&legend) {
            Some(i) => {
                let mut moved = (String::new(), Vec::new());
                self.data.set_and_swap(i, &mut moved);
                let mut bucket = moved.1;
                bucket.push(point);
                self.data.set(i, (legend, bucket));
                assert(self@ =~= before.update(i as int, (legend@, before[i as int].1.push(point))));
            },
            None => {
                let mut bucket: Vec<P> = Vec::new();
                bucket.push(point);
                self.data.push((legend, bucket));
                assert(self@ =~= before.push((legend@, seq![point])));
            },
        }
    }

    /// Groups `points` by the legend at the same index.
    pub fn group(points: &Vec<P>, legends: &Vec<String>) -> (r: PlotSeries<P>)
        requires
            points@.len() == legends@.len(),
        ensures
            r.wf(),
            r@ == grouped(points@, legends@.map_values(|l: String| l@), points@.len()),
    {
        let ghost names = legends@.map_values(|l: String| l@);
        let mut r = PlotSeries::new();
        let mut i: usize = 0;
        while i < points.len()
            invariant
                points@.len() == legends@.len(),
                names == legends@.map_values(|l: String| l@),
                i <= points@.len(),
                r.wf(),
                r@ == grouped(points@, names, i as nat),
            decreases points@.len() - i,
        {
            r.add(legends[i].clone(), points[i]);
            i += 1;
        }
        r
    }

    /// The points of `legend`, if it has a bucket.
    pub fn get(&self, legend: &String) -> (r: Option<&Vec<P>>)
        requires
            self.wf(),
        ensures
            r is Some <==> find_legend(self@, legend@) >= 0,
            r is Some ==> r->Some_0@ == bucket_of(self@, legend@),
    {
        proof {
            lemma_find_legend_bounds(self@, legend@);
        }
        match self.position(legend) {
            Some(i) => Some(&self.data[i].1),
            None => None,
        }
    }

    /// Number of legends.
    pub fn len(&self) -> (r: usize)
        ensures
            r == self@.len(),
    {
        self.data.len()
    }

    /// The buckets, as (legend, points) pairs.
    pub fn get_data(&self) -> (r: &Vec<(String, Vec<P>)>)
        ensures
            r@.len() == self@.len(),
            forall|i: int|
                0 <= i < r@.len() ==> (#[trigger] r@[i]).0@ == self@[i].0 && r@[i].1@
                    == self@[i].1,
    {
        &self.data
    }
}

/// Grouping keeps, for each legend, exactly the points carrying it, in the order they
/// come; a legend no point carries has no bucket.
pub proof fn lemma_grouping_keeps_order<P>(points: Seq<P>, legends: Seq<Seq<char>>, legend: Seq<char>, n: nat)
    requires
        n <= points.len(),
        n <= legends.len(),
    ensures
        distinct_legends(grouped(points, legends, n)),
        bucket_of(grouped(points, legends, n), legend) == points_of(points, legends, legend, n),
        find_legend(grouped(points, legends, n), legend) < 0 <==> points_of(points, legends, legend, n).len() == 0,
    decreases n,
{
    if n > 0 {
        let m = (n - 1) as nat;
        let prev = grouped(points, legends, m);
        lemma_grouping_keeps_order(points, legends, legend, m);
        lemma_find_legend_bounds(prev, legends[m as int]);
        lemma_find_legend_bounds(prev, legend);
        let cur = grouped(points, legends, n);
        let k = find_legend(prev, legends[m as int]);
        if k >= 0 {
            assert(distinct_legends(cur));
            lemma_find_legend_unique(cur, legends[m as int], k);
            if legends[m as int] == legend {
            } else {
                let t = find_legend(prev, legend);
                if t >= 0 {
                    lemma_find_legend_unique(cur, legend, t);
                } else {
                    lemma_find_legend_bounds(cur, legend);
                }
            }
        } else {
            assert(distinct_legends(cur));
            lemma_find_legend_unique(cur, legends[m as int], prev.len() as int);
            if legends[m as int] != legend {
                let t = find_legend(prev, legend);
                if t >= 0 {
                    lemma_find_legend_unique(cur, legend, t);
                } else {
                    lemma_find_legend_bounds(cur, legend);
                }
            }
        }
    }
}

} // verus!
