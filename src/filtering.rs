use vstd::prelude::*;

verus! {

/// Element-wise conjunction of two keep-vectors of one length.
pub open spec fn and_of(a: Seq<bool>, b: Seq<bool>) -> Seq<bool> {
    Seq::new(a.len(), |i: int| a[i] && b[i])
}

/// The keep-vector of length `n` that keeps every sample.
pub open spec fn all_kept(n: nat) -> Seq<bool> {
    Seq::new(n, |i: int| true)
}

/// Element-wise negation of a flag vector.
pub open spec fn negated(a: Seq<bool>) -> Seq<bool> {
    Seq::new(a.len(), |i: int| !a[i])
}

/// The elements of `data` whose mask bit is `true`, in the order they come.
pub open spec fn kept<U>(data: Seq<U>, mask: Seq<bool>) -> Seq<U>
    decreases data.len(),
{
    if data.len() == 0 {
        Seq::empty()
    } else {
        let prev = kept(data.drop_last(), mask);
        if mask[data.len() - 1] {
            prev.push(data.last())
        } else {
            prev
        }
    }
}

/// A keep/drop vector over sample indices: `true` keeps the sample.
pub struct Mask {
    mask: Vec<bool>,
}

impl View for Mask {
    type V = Seq<bool>;

    closed spec fn view(&self) -> Seq<bool> {
        self.mask@
    }
}

impl From<Vec<bool>> for Mask {
    fn from(mask: Vec<bool>) -> (r: Mask)
        ensures
            r@ == mask@,
    {
        Mask { mask }
    }
}

impl vstd::std_specs::convert::FromSpecImpl<Vec<bool>> for Mask {
    open spec fn obeys_from_spec() -> bool {
        true
    }

    closed spec fn from_spec(v: Vec<bool>) -> Mask {
        Mask { mask: v }
    }
}

impl Mask {
    /// A mask of `size` samples that keeps all of them.
    pub fn new(size: usize) -> (r: Mask)
        ensures
            r@ == all_kept(size as nat),
    {
        let mut mask: Vec<bool> = Vec::with_capacity(size);
        let mut i: usize = 0;
        while i < size
            invariant
                i <= size,
                mask@ == all_kept(i as nat),
            decreases size - i,
        {
            mask.push(true);
            i += 1;
        }
        Mask { mask }
    }

    /// Number of samples the mask covers.
    pub fn len(&self) -> (r: usize)
        ensures
            r == self@.len(),
    {
        self.mask.len()
    }

    /// Whether sample `i` is kept.
    pub fn is_kept(&self, i: usize) -> (r: bool)
        requires
            i < self@.len(),
        ensures
            r == self@[i as int],
    {
        self.mask[i]
    }

    /// The keep-vector itself.
    pub fn get_mask(&self) -> (r: &Vec<bool>)
        ensures
            r@ == self@,
    {
        &self.mask
    }

    /// AND-combines `mask` into this mask, in place.
    pub fn merge(&mut self, mask: &Vec<bool>)
        requires
            old(self)@.len() == mask@.len(),
        ensures
            final(self)@ == and_of(old(self)@, mask@),
    {
        let n = mask.len();
        let mut merged: Vec<bool> = Vec::with_capacity(n);
        let mut i: usize = 0;
        while i < n
            invariant
                n == mask@.len(),
                self@ == old(self)@,
                self@.len() == n,
                i <= n,
                merged@ == and_of(self@.subrange(0, i as int), mask@.subrange(0, i as int)),
            decreases n - i,
        {
            merged.push(self.mask[i] && mask[i]);
            i += 1;
            assert(merged@ =~= and_of(self@.subrange(0, i as int), mask@.subrange(0, i as int)));
        }
        assert(self@.subrange(0, n as int) =~= self@);
        assert(mask@.subrange(0, n as int) =~= mask@);
        self.mask = merged;
    }

    /// AND-combines the complement of `flags` into this mask: a flagged sample is dropped.
    pub fn merge_inverted(&mut self, flags: &Vec<bool>)
        requires
            old(self)@.len() == flags@.len(),
        ensures
            final(self)@ == and_of(old(self)@, negated(flags@)),
    {
        let keep = invert(flags);
        self.merge(&keep);
    }

    /// The elements of `data` whose sample is kept, in the order they come.
    pub fn apply<U: Clone>(&self, data: &Vec<U>) -> (r: Vec<U>)
        requires
            data@.len() <= self@.len(),
        ensures
            r@.len() == kept(data@, self@).len(),
            forall|i: int| 0 <= i < r@.len() ==> cloned(kept(data@, self@)[i], #[trigger] r@[i]),
    {
        let mut filtered: Vec<U> = Vec::new();
        let mut i: usize = 0;
        while i < data.len()
            invariant
                i <= data@.len(),
                data@.len() <= self@.len(),
                filtered@.len() == kept(data@.subrange(0, i as int), self@).len(),
                forall|k: int|
                    0 <= k < filtered@.len() ==> cloned(
                        kept(data@.subrange(0, i as int), self@)[k],
                        #[trigger] filtered@[k],
                    ),
            decreases data@.len() - i,
        {
            proof {
                assert(data@.subrange(0, i + 1).drop_last() =~= data@.subrange(0, i as int));
            }
            if self.mask[i] {
                let d = data[i].clone();
                filtered.push(d);
            }
            i += 1;
        }
        assert(data@.subrange(0, data@.len() as int) =~= data@);
        filtered
    }

    /// The kept elements of a column of plain values, in the order they come.
    pub fn apply_copied<U: Copy>(&self, data: &Vec<U>) -> (r: Vec<U>)
        requires
            data@.len() <= self@.len(),
        ensures
            r@ == kept(data@, self@),
    {
        let mut filtered: Vec<U> = Vec::new();
        let mut i: usize = 0;
        while i < data.len()
            invariant
                i <= data@.len(),
                data@.len() <= self@.len(),
                filtered@ == kept(data@.subrange(0, i as int), self@),
            decreases data@.len() - i,
        {
            proof {
                assert(data@.subrange(0, i + 1).drop_last() =~= data@.subrange(0, i as int));
            }
            if self.mask[i] {
                filtered.push(data[i]);
            }
            i += 1;
        }
        assert(data@.subrange(0, data@.len() as int) =~= data@);
        filtered
    }
}

/// The complement of a flag vector.
pub fn invert(flags: &Vec<bool>) -> (r: Vec<bool>)
    ensures
        r@ == negated(flags@),
{
    let mut r: Vec<bool> = Vec::with_capacity(flags.len());
    let mut i: usize = 0;
    while i < flags.len()
        invariant
            i <= flags@.len(),
            r@ == negated(flags@.subrange(0, i as int)),
        decreases flags@.len() - i,
    {
        r.push(!flags[i]);
        i += 1;
        assert(r@ =~= negated(flags@.subrange(0, i as int)));
    }
    assert(flags@.subrange(0, flags@.len() as int) =~= flags@);
    r
}

/// The mask that keeps a sample exactly when every keep-vector in `keeps` keeps it.
pub fn combine_keeps(size: usize, keeps: &Vec<Vec<bool>>) -> (r: Mask)
    requires
        forall|k: int| 0 <= k < keeps@.len() ==> (#[trigger] keeps@[k])@.len() == size,
    ensures
        r@.len() == size,
        forall|i: int|
            0 <= i < size ==> (r@[i] <==> forall|k: int|
                0 <= k < keeps@.len() ==> (#[trigger] keeps@[k])@[i]),
{
    let mut m = Mask::new(size);
    let mut k: usize = 0;
    while k < keeps.len()
        invariant
            k <= keeps@.len(),
            forall|j: int| 0 <= j < keeps@.len() ==> (#[trigger] keeps@[j])@.len() == size,
            m@.len() == size,
            forall|i: int|
                0 <= i < size ==> (m@[i] <==> forall|j: int|
                    0 <= j < k ==> (#[trigger] keeps@[j])@[i]),
        decreases keeps@.len() - k,
    {
        let ghost before = m@;
        m.merge(&keeps[k]);
        assert forall|i: int| 0 <= i < size implies (m@[i] <==> forall|j: int|
            0 <= j < k + 1 ==> (#[trigger] keeps@[j])@[i]) by {
            if m@[i] {
                assert forall|j: int| 0 <= j < k + 1 implies (#[trigger] keeps@[j])@[i] by {
                    if j < k {
                        assert(before[i]);
                    }
                }
            } else {
                if before[i] {
                    assert(!keeps@[k as int]@[i]);
                } else {
                    let j = choose|j: int| 0 <= j < k && !(#[trigger] keeps@[j])@[i];
                    assert(!keeps@[j]@[i]);
                }
            }
        }
        k += 1;
    }
    m
}

/// Merging is commutative, and merging a second time with the same vector, or with
/// a vector that keeps everything, changes nothing.
pub proof fn lemma_merge_laws(m1: Mask, m2: Mask)
    requires
        m1@.len() == m2@.len(),
    ensures
        and_of(m1@, m2@) == and_of(m2@, m1@),
        and_of(and_of(m1@, m2@), m2@) == and_of(m1@, m2@),
        and_of(m1@, all_kept(m1@.len())) == m1@,
{
    assert(and_of(m1@, m2@) =~= and_of(m2@, m1@));
    assert(and_of(and_of(m1@, m2@), m2@) =~= and_of(m1@, m2@));
    assert(and_of(m1@, all_kept(m1@.len())) =~= m1@);
}

/// Applying a mask that keeps every sample returns the column unchanged.
pub proof fn lemma_apply_all_kept<U>(data: Seq<U>)
    ensures
        kept(data, all_kept(data.len())) == data,
    decreases data.len(),
{
    if data.len() > 0 {
        lemma_kept_prefix(data.drop_last(), data.last(), all_kept(data.len()));
        lemma_kept_mask_extends(data.drop_last(), all_kept((data.len() - 1) as nat), all_kept(data.len()));
        lemma_apply_all_kept(data.drop_last());
        assert(data.drop_last().push(data.last()) =~= data);
    }
}

/// A filter whose predicate keeps every sample, merged into a fresh mask, hands the
/// column back exactly.
pub proof fn lemma_all_pass_round_trip<U>(data: Seq<U>, keep: Seq<bool>)
    requires
        keep.len() == data.len(),
        forall|i: int| 0 <= i < keep.len() ==> keep[i],
    ensures
        kept(data, and_of(all_kept(data.len()), keep)) == data,
{
    assert(and_of(all_kept(data.len()), keep) =~= all_kept(data.len()));
    lemma_apply_all_kept(data);
}

proof fn lemma_kept_prefix<U>(prefix: Seq<U>, last: U, mask: Seq<bool>)
    ensures
        prefix.push(last).drop_last() == prefix,
        kept(prefix.push(last), mask) == if mask[prefix.len() as int] {
            kept(prefix, mask).push(last)
        } else {
            kept(prefix, mask)
        },
{
    assert(prefix.push(last).drop_last() =~= prefix);
}

/// `kept` only reads the mask bits below the length of the data.
proof fn lemma_kept_mask_extends<U>(data: Seq<U>, m1: Seq<bool>, m2: Seq<bool>)
    requires
        data.len() <= m1.len(),
        forall|i: int| 0 <= i < data.len() ==> m1[i] == m2[i],
    ensures
        kept(data, m1) == kept(data, m2),
    decreases data.len(),
{
    if data.len() > 0 {
        lemma_kept_mask_extends(data.drop_last(), m1, m2);
    }
}

} // verus!
