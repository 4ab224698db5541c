use vstd::prelude::*;

verus! {

/// Smallest integer not below `a / b`, for `b > 0`.
pub open spec fn ceil_div(a: int, b: int) -> int
    recommends
        b > 0,
{
    (a + b - 1) / b
}

/// Index of the first quartile in a sorted column of `n` values ("inverted CDF" rule).
pub open spec fn q1_index(n: int) -> int {
    ceil_div(n, 4) - 1
}

/// Index of the third quartile in a sorted column of `n` values ("inverted CDF" rule).
pub open spec fn q3_index(n: int) -> int {
    ceil_div(3 * n, 4) - 1
}

/// Indices of the first and third quartiles, `ceil(n/4) - 1` and `ceil(3n/4) - 1`,
/// in a sorted column of `n >= 1` values.
pub fn quartile_indices(n: usize) -> (r: (usize, usize))
    requires
        n >= 1,
    ensures
        r.0 == q1_index(n as int),
        r.1 == q3_index(n as int),
        r.0 <= r.1 < n,
{
    let quarter = n / 4;
    let rem = n % 4;
    let up: usize = if rem == 0 { quarter } else { quarter + 1 };
    // ceil(3n/4) = n - floor(n/4)
    let q3_up = n - quarter;
    proof {
        assert(ceil_div(n as int, 4) == up) by (nonlinear_arith)
            requires
                quarter == n / 4,
                rem == n % 4,
                rem == 0 ==> up == quarter,
                rem != 0 ==> up == quarter + 1,
                n >= 1,
        ;
        assert(ceil_div(3 * n as int, 4) == q3_up) by (nonlinear_arith)
            requires
                quarter == n / 4,
                q3_up == n - quarter,
                n >= 1,
        ;
    }
    (up - 1, q3_up - 1)
}

/// The first and third quartiles of an ascending column: `None` for an empty column.
pub fn pick_quartiles<T: Copy>(sorted: &Vec<T>) -> (r: Option<(T, T)>)
    ensures
        sorted@.len() == 0 <==> r is None,
        r is Some ==> r->Some_0 == (
            sorted@[q1_index(sorted@.len() as int)],
            sorted@[q3_index(sorted@.len() as int)],
        ),
{
    if sorted.len() == 0 {
        return None;
    }
    let (i1, i3) = quartile_indices(sorted.len());
    Some((sorted[i1], sorted[i3]))
}

/// Indices of the two middle values of a sorted column of `n >= 1` values: the same
/// index twice for odd `n`.
pub fn median_indices(n: usize) -> (r: (usize, usize))
    requires
        n >= 1,
    ensures
        n % 2 == 1 ==> r.0 == n / 2 && r.1 == n / 2,
        n % 2 == 0 ==> r.0 == n / 2 - 1 && r.1 == n / 2,
        r.0 <= r.1 < n,
{
    if n % 2 == 0 {
        (n / 2 - 1, n / 2)
    } else {
        (n / 2, n / 2)
    }
}

/// The two middle values of an ascending column, whose mean is the median: `None` for
/// an empty column.
pub fn pick_median_pair<T: Copy>(sorted: &Vec<T>) -> (r: Option<(T, T)>)
    ensures
        sorted@.len() == 0 <==> r is None,
        r is Some && sorted@.len() % 2 == 1 ==> r->Some_0 == (
            sorted@[sorted@.len() as int / 2],
            sorted@[sorted@.len() as int / 2],
        ),
        r is Some && sorted@.len() % 2 == 0 ==> r->Some_0 == (
            sorted@[sorted@.len() as int / 2 - 1],
            sorted@[sorted@.len() as int / 2],
        ),
{
    if sorted.len() == 0 {
        return None;
    }
    let (lo, hi) = median_indices(sorted.len());
    Some((sorted[lo], sorted[hi]))
}

/// The metrics a column of values can be summarised by.
#[derive(Clone, Copy, Debug, PartialEq, Eq, Hash, PartialOrd, Ord, Structural)]
pub enum MetricName {
    Mean,
    Median,
}

/// The name of a metric as text.
pub open spec fn metric_name_text(m: MetricName) -> Seq<char> {
    match m {
        MetricName::Mean => "mean"@,
        MetricName::Median => "median"@,
    }
}

impl MetricName {
    pub fn get_name(&self) -> (r: String)
        ensures
            r@ == metric_name_text(*self),
    {
        match self {
            MetricName::Mean => String::from_str("mean"),
            MetricName::Median => String::from_str("median"),
        }
    }
}

/// Start indices of the maximal runs of equal consecutive values in `keys`.
pub open spec fn is_run_start(keys: Seq<u32>, i: int) -> bool {
    0 <= i < keys.len() && (i == 0 || keys[i] != keys[i - 1])
}

/// Splits `keys` into maximal runs of equal consecutive values and returns the index at
/// which each run starts, in ascending order. Fed with the bit patterns of x values sorted
/// ascending, each run is one group of points that share an x value.
pub fn run_starts(keys: &Vec<u32>) -> (r: Vec<usize>)
    ensures
        forall|a: int, b: int| 0 <= a < b < r@.len() ==> r@[a] < r@[b],
        forall|a: int| 0 <= a < r@.len() ==> is_run_start(keys@, #[trigger] r@[a] as int),
        forall|i: int| is_run_start(keys@, i) ==> exists|a: int| 0 <= a < r@.len() && r@[a] == i,
        keys@.len() == 0 <==> r@.len() == 0,
{
    let mut r: Vec<usize> = Vec::new();
    let mut i: usize = 0;
    while i < keys.len()
        invariant
            i <= keys@.len(),
            forall|a: int, b: int| 0 <= a < b < r@.len() ==> r@[a] < r@[b],
            forall|a: int| 0 <= a < r@.len() ==> r@[a] < i,
            forall|a: int| 0 <= a < r@.len() ==> is_run_start(keys@, #[trigger] r@[a] as int),
            forall|j: int|
                0 <= j < i && is_run_start(keys@, j) ==> exists|a: int|
                    0 <= a < r@.len() && r@[a] == j,
            i > 0 ==> r@.len() > 0,
            r@.len() <= i,
        decreases keys@.len() - i,
    {
        let ghost prev = r@;
        if i == 0 || keys[i] != keys[i - 1] {
            r.push(i);
        }
        proof {
            assert forall|j: int|
                0 <= j < i + 1 && is_run_start(keys@, j) implies exists|a: int|
                0 <= a < r@.len() && r@[a] == j by {
                if j < i {
                    let a = choose|a: int| 0 <= a < prev.len() && prev[a] == j;
                    assert(r@[a] == j);
                } else {
                    assert(r@[r@.len() - 1] == j);
                }
            }
        }
        i += 1;
    }
    r
}

} // verus!
