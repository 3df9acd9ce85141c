//! Two-dimensional resource cost, as the host meters it.

use vstd::prelude::*;

verus! {

/// An amount of computation time and of proof size.
///
/// Amounts are compared dimension by dimension: one weight is within another
/// when neither of its dimensions exceeds the other's.
#[derive(Clone, Copy, Debug, PartialEq, Eq, Structural)]
pub struct Weight {
    pub ref_time: u64,
    pub proof_size: u64,
}

impl Weight {
    /// The weight of doing nothing.
    pub open spec fn spec_zero() -> Weight {
        Weight { ref_time: 0, proof_size: 0 }
    }

    /// Both dimensions of `self` are at most those of `other`.
    pub open spec fn spec_all_lte(self, other: Weight) -> bool {
        self.ref_time <= other.ref_time && self.proof_size <= other.proof_size
    }

    /// `self - rhs` in both dimensions, where `rhs` is within `self`.
    pub open spec fn spec_checked_sub(self, rhs: Weight) -> Option<Weight> {
        if rhs.spec_all_lte(self) {
            Some(
                Weight {
                    ref_time: (self.ref_time - rhs.ref_time) as u64,
                    proof_size: (self.proof_size - rhs.proof_size) as u64,
                },
            )
        } else {
            None
        }
    }

    /// `self + rhs` in both dimensions, each held at `u64::MAX`.
    pub open spec fn spec_saturating_add(self, rhs: Weight) -> Weight {
        Weight {
            ref_time: if self.ref_time + rhs.ref_time > u64::MAX {
                u64::MAX
            } else {
                (self.ref_time + rhs.ref_time) as u64
            },
            proof_size: if self.proof_size + rhs.proof_size > u64::MAX {
                u64::MAX
            } else {
                (self.proof_size + rhs.proof_size) as u64
            },
        }
    }

    /// The smaller of the two in each dimension.
    pub open spec fn spec_min(self, other: Weight) -> Weight {
        Weight {
            ref_time: if self.ref_time <= other.ref_time {
                self.ref_time
            } else {
                other.ref_time
            },
            proof_size: if self.proof_size <= other.proof_size {
                self.proof_size
            } else {
                other.proof_size
            },
        }
    }

    #[verifier::when_used_as_spec(spec_zero)]
    pub fn zero() -> (r: Weight)
        ensures
            r == Weight::spec_zero(),
    {
        Weight { ref_time: 0, proof_size: 0 }
    }

    pub fn from_parts(ref_time: u64, proof_size: u64) -> (r: Weight)
        ensures
            r == (Weight { ref_time, proof_size }),
    {
        Weight { ref_time, proof_size }
    }

    pub fn ref_time(&self) -> (r: u64)
        ensures
            r == self.ref_time,
    {
        self.ref_time
    }

    pub fn proof_size(&self) -> (r: u64)
        ensures
            r == self.proof_size,
    {
        self.proof_size
    }

    #[verifier::when_used_as_spec(spec_all_lte)]
    pub fn all_lte(self, other: Weight) -> (r: bool)
        ensures
            r == self.spec_all_lte(other),
    {
        self.ref_time <= other.ref_time && self.proof_size <= other.proof_size
    }

    #[verifier::when_used_as_spec(spec_checked_sub)]
    pub fn checked_sub(self, rhs: Weight) -> (r: Option<Weight>)
        ensures
            r == self.spec_checked_sub(rhs),
    {
        if rhs.ref_time <= self.ref_time && rhs.proof_size <= self.proof_size {
            Some(
                Weight {
                    ref_time: self.ref_time - rhs.ref_time,
                    proof_size: self.proof_size - rhs.proof_size,
                },
            )
        } else {
            None
        }
    }

    #[verifier::when_used_as_spec(spec_saturating_add)]
    pub fn saturating_add(self, rhs: Weight) -> (r: Weight)
        ensures
            r == self.spec_saturating_add(rhs),
    {
        Weight {
            ref_time: if self.ref_time > u64::MAX - rhs.ref_time {
                u64::MAX
            } else {
                self.ref_time + rhs.ref_time
            },
            proof_size: if self.proof_size > u64::MAX - rhs.proof_size {
                u64::MAX
            } else {
                self.proof_size + rhs.proof_size
            },
        }
    }

    #[verifier::when_used_as_spec(spec_min)]
    pub fn min(self, other: Weight) -> (r: Weight)
        ensures
            r == self.spec_min(other),
    {
        Weight {
            ref_time: if self.ref_time <= other.ref_time {
                self.ref_time
            } else {
                other.ref_time
            },
            proof_size: if self.proof_size <= other.proof_size {
                self.proof_size
            } else {
                other.proof_size
            },
        }
    }
}

} // verus!
