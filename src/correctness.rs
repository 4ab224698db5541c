use vstd::prelude::*;

verus! {

/// Confusion counts of a binary classifier and their total.
#[derive(Clone, Copy, Debug, PartialEq, Eq, Structural)]
pub struct CorrectnessStatsWrapper {
    total_sample: u64,
    true_positive: u64,
    false_positive: u64,
    false_negative: u64,
    true_negative: u64,
}

impl Default for CorrectnessStatsWrapper {
    fn default() -> (r: CorrectnessStatsWrapper)
        ensures
            r.spec_total_sample() == 0,
            r.spec_true_positive() == 0,
            r.spec_false_positive() == 0,
            r.spec_false_negative() == 0,
            r.spec_true_negative() == 0,
            r.wf(),
    {
        CorrectnessStatsWrapper {
            total_sample: 0,
            true_positive: 0,
            false_positive: 0,
            false_negative: 0,
            true_negative: 0,
        }
    }
}

impl CorrectnessStatsWrapper {
    pub fn new(true_positive: u64, false_positive: u64, false_negative: u64, true_negative: u64) -> (r:
        CorrectnessStatsWrapper)
        requires
            true_positive + false_positive + false_negative + true_negative <= u64::MAX,
        ensures
            r.spec_true_positive() == true_positive,
            r.spec_false_positive() == false_positive,
            r.spec_false_negative() == false_negative,
            r.spec_true_negative() == true_negative,
            r.spec_total_sample() == true_positive + false_positive + false_negative + true_negative,
            r.wf(),
    {
        CorrectnessStatsWrapper {
            total_sample: true_positive + false_positive + false_negative + true_negative,
            true_positive,
            false_positive,
            false_negative,
            true_negative,
        }
    }

    pub closed spec fn spec_total_sample(&self) -> u64 {
        self.total_sample
    }

    pub closed spec fn spec_true_positive(&self) -> u64 {
        self.true_positive
    }

    pub closed spec fn spec_false_positive(&self) -> u64 {
        self.false_positive
    }

    pub closed spec fn spec_false_negative(&self) -> u64 {
        self.false_negative
    }

    pub closed spec fn spec_true_negative(&self) -> u64 {
        self.true_negative
    }

    /// The four counts add up to the total.
    pub closed spec fn wf(&self) -> bool {
        self.total_sample == self.true_positive + self.false_positive + self.false_negative
            + self.true_negative
    }

    /// Column titles of a report row, in the order of the values.
    pub fn get_headers() -> (r: [&'static str; 9])
        ensures
            r[0]@ == "total sample"@,
            r[1]@ == "true_positive"@,
            r[2]@ == "false_positive"@,
            r[3]@ == "false_negative"@,
            r[4]@ == "true_negative"@,
            r[5]@ == "recall"@,
            r[6]@ == "precision"@,
            r[7]@ == "f1"@,
            r[8]@ == "accuracy"@,
    {
        [
            "total sample",
            "true_positive",
            "false_positive",
            "false_negative",
            "true_negative",
            "recall",
            "precision",
            "f1",
            "accuracy",
        ]
    }

    pub fn get_total_sample(&self) -> (r: u64)
        ensures
            r == self.spec_total_sample(),
    {
        self.total_sample
    }

    pub fn get_true_positive(&self) -> (r: u64)
        ensures
            r == self.spec_true_positive(),
    {
        self.true_positive
    }

    pub fn get_false_positive(&self) -> (r: u64)
        ensures
            r == self.spec_false_positive(),
    {
        self.false_positive
    }

    pub fn get_false_negative(&self) -> (r: u64)
        ensures
            r == self.spec_false_negative(),
    {
        self.false_negative
    }

    pub fn get_true_negative(&self) -> (r: u64)
        ensures
            r == self.spec_true_negative(),
    {
        self.true_negative
    }

    /// Counts of both, added.
    pub fn ref_add(&self, other: &CorrectnessStatsWrapper) -> (r: CorrectnessStatsWrapper)
        requires
            self.spec_true_positive() + other.spec_true_positive() + self.spec_false_positive()
                + other.spec_false_positive() + self.spec_false_negative()
                + other.spec_false_negative() + self.spec_true_negative()
                + other.spec_true_negative() <= u64::MAX,
        ensures
            r.spec_true_positive() == self.spec_true_positive() + other.spec_true_positive(),
            r.spec_false_positive() == self.spec_false_positive() + other.spec_false_positive(),
            r.spec_false_negative() == self.spec_false_negative() + other.spec_false_negative(),
            r.spec_true_negative() == self.spec_true_negative() + other.spec_true_negative(),
            r.wf(),
    {
        CorrectnessStatsWrapper::new(
            self.true_positive + other.true_positive,
            self.false_positive + other.false_positive,
            self.false_negative + other.false_negative,
            self.true_negative + other.true_negative,
        )
    }
}

} // verus!
