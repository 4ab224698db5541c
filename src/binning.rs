use vstd::prelude::*;

verus! {

/// Number of equal-width bins each axis is cut into.
pub const SERIE_DIVISION: usize = 500;

/// A grid cell, as (x bin, y bin).
pub type Cell = (usize, usize);

/// The cell lies inside the grid.
pub open spec fn in_grid(c: Cell) -> bool {
    c.0 < SERIE_DIVISION && c.1 < SERIE_DIVISION
}

/// Row-major slot of a cell of the grid.
pub open spec fn slot_of(c: Cell) -> int {
    c.0 * SERIE_DIVISION + c.1
}

/// Row-major slot of a cell of the grid.
pub fn cell_slot(c: Cell) -> (r: usize)
    requires
        in_grid(c),
    ensures
        r == slot_of(c),
        r < SERIE_DIVISION * SERIE_DIVISION,
{
    proof {
        assert(c.0 * SERIE_DIVISION + c.1 < SERIE_DIVISION * SERIE_DIVISION) by (nonlinear_arith)
            requires
                c.0 < SERIE_DIVISION,
                c.1 < SERIE_DIVISION,
        ;
    }
    c.0 * SERIE_DIVISION + c.1
}

proof fn lemma_slot_injective(a: Cell, b: Cell)
    requires
        in_grid(a),
        in_grid(b),
        slot_of(a) == slot_of(b),
    ensures
        a == b,
{
    assert(a.0 == b.0 && a.1 == b.1) by (nonlinear_arith)
        requires
            a.0 < SERIE_DIVISION,
            a.1 < SERIE_DIVISION,
            b.0 < SERIE_DIVISION,
            b.1 < SERIE_DIVISION,
            a.0 * SERIE_DIVISION + a.1 == b.0 * SERIE_DIVISION + b.1,
    ;
}

/// Some point is in bin `g`.
pub open spec fn holds_point(group_of: Seq<usize>, g: int) -> bool {
    exists|i: int| 0 <= i < group_of.len() && group_of[i] == g
}

/// Assignment of points to occupied cells: `group_of[i]` is the bin of point `i`, bins
/// numbered from 0 in the order their first point comes, `n_bins` of them.
pub struct BinAssignment {
    pub group_of: Vec<usize>,
    pub n_bins: usize,
}

/// Sends each point, given by its cell, to one bin per occupied cell. Points share a
/// bin exactly when they share a cell, every bin holds a point, and there are never
/// more bins than cells in the grid.
pub fn assign_bins(cells: &Vec<Cell>) -> (r: BinAssignment)
    requires
        forall|i: int| 0 <= i < cells@.len() ==> in_grid(#[trigger] cells@[i]),
    ensures
        r.group_of@.len() == cells@.len(),
        forall|i: int| 0 <= i < cells@.len() ==> (#[trigger] r.group_of@[i]) < r.n_bins,
        forall|i: int, j: int|
            0 <= i < cells@.len() && 0 <= j < cells@.len() ==> ((#[trigger] r.group_of@[i]
                == #[trigger] r.group_of@[j]) <==> cells@[i] == cells@[j]),
        forall|g: int| 0 <= g < r.n_bins ==> #[trigger] holds_point(r.group_of@, g),
        r.n_bins <= cells@.len(),
        r.n_bins <= SERIE_DIVISION * SERIE_DIVISION,
{
    let total: usize = SERIE_DIVISION * SERIE_DIVISION;
    // slot -> 1 + bin number, 0 for an empty slot
    let mut table: Vec<usize> = Vec::with_capacity(total);
    let mut s: usize = 0;
    while s < total
        invariant
            s <= total,
            total == SERIE_DIVISION * SERIE_DIVISION,
            table@.len() == s,
            forall|k: int| 0 <= k < s ==> table@[k] == 0,
        decreases total - s,
    {
        table.push(0);
        s += 1;
    }
    // bin -> its slot
    let mut slots: Vec<usize> = Vec::new();
    // bin -> the first point in it
    let ghost mut first: Seq<int> = Seq::empty();
    let mut group_of: Vec<usize> = Vec::with_capacity(cells.len());
    let mut i: usize = 0;
    while i < cells.len()
        invariant
            total == SERIE_DIVISION * SERIE_DIVISION,
            forall|k: int| 0 <= k < cells@.len() ==> in_grid(#[trigger] cells@[k]),
            i <= cells@.len(),
            table@.len() == total,
            group_of@.len() == i,
            first.len() == slots@.len(),
            slots@.len() <= i,
            forall|b: int| 0 <= b < slots@.len() ==> #[trigger] slots@[b] < total,
            forall|b: int|
                0 <= b < slots@.len() ==> table@[#[trigger] slots@[b] as int] == b + 1,
            forall|k: int|
                0 <= k < total ==> table@[k] <= slots@.len() && (table@[k] > 0 ==> slots@[table@[k] - 1] == k),
            forall|b: int|
                0 <= b < slots@.len() ==> 0 <= #[trigger] first[b] < i && group_of@[first[b]] == b
                    && slot_of(cells@[first[b]]) == slots@[b],
            forall|k: int|
                0 <= k < i ==> (#[trigger] group_of@[k]) < slots@.len() && slots@[group_of@[k] as int]
                    == slot_of(cells@[k]),
        decreases cells@.len() - i,
    {
        let slot = cell_slot(cells[i]);
        let t = table[slot];
        if t == 0 {
            let b = slots.len();
            slots.push(slot);
            table.set(slot, b + 1);
            group_of.push(b);
            proof {
                first = first.push(i as int);
            }
        } else {
            group_of.push(t - 1);
        }
        i += 1;
    }
    let n_bins = slots.len();
    proof {
        assert forall|a: int, c: int|
            0 <= a < cells@.len() && 0 <= c < cells@.len() implies ((#[trigger] group_of@[a]
                == #[trigger] group_of@[c]) <==> cells@[a] == cells@[c]) by {
            if group_of@[a] == group_of@[c] {
                lemma_slot_injective(cells@[a], cells@[c]);
            }
            if cells@[a] == cells@[c] {
                let ga = group_of@[a] as int;
                let gc = group_of@[c] as int;
                assert(table@[slots@[ga] as int] == ga + 1);
                assert(table@[slots@[gc] as int] == gc + 1);
            }
        }
        assert forall|g: int| 0 <= g < n_bins implies #[trigger] holds_point(group_of@, g) by {
            assert(group_of@[first[g]] == g);
        }
        lemma_bins_bounded(slots@, total as int);
    }
    BinAssignment { group_of, n_bins }
}

/// Distinct slots below `total` number at most `total`.
proof fn lemma_bins_bounded(slots: Seq<usize>, total: int)
    requires
        total >= 0,
        forall|b: int| 0 <= b < slots.len() ==> #[trigger] slots[b] < total,
        forall|a: int, b: int| 0 <= a < b < slots.len() ==> slots[a] != slots[b],
    ensures
        slots.len() <= total,
{
    let s = slots.map_values(|v: usize| v as int);
    assert(s.no_duplicates()) by {
        assert forall|a: int, b: int| 0 <= a < s.len() && 0 <= b < s.len() && a != b implies s[a] != s[b] by {
            if a < b {
                assert(slots[a] != slots[b]);
            } else {
                assert(slots[b] != slots[a]);
            }
        }
    }
    s.unique_seq_to_set();
    let range = vstd::set_lib::set_int_range(0, total);
    vstd::set_lib::lemma_int_range(0, total);
    assert(s.to_set().subset_of(range));
    vstd::set_lib::lemma_len_subset(s.to_set(), range);
}

} // verus!
