//! Two-dimensional weights (computation time and proof size) with saturating arithmetic.
use vstd::prelude::*;

verus! {

/// The largest value a `u64` can hold, as a mathematical integer.
pub open spec fn u64_max() -> int {
    0xffff_ffff_ffff_ffff
}

/// `a + b`, clamped to the range of `u64`.
pub open spec fn sat_add(a: u64, b: u64) -> u64 {
    if a + b > u64_max() { 0xffff_ffff_ffff_ffffu64 } else { (a + b) as u64 }
}

/// `a * b`, clamped to the range of `u64`.
pub open spec fn sat_mul(a: u64, b: u64) -> u64 {
    if a * b > u64_max() { 0xffff_ffff_ffff_ffffu64 } else { (a * b) as u64 }
}

/// `a - b`, clamped at zero.
pub open spec fn sat_sub(a: u64, b: u64) -> u64 {
    if a < b { 0u64 } else { (a - b) as u64 }
}

/// An amount of execution resources: reference time and proof size.
#[derive(Clone, Copy, PartialEq, Eq, Structural, Debug)]
pub struct Weight {
    pub ref_time: u64,
    pub proof_size: u64,
}

/// Componentwise saturating sum of two weights.
pub open spec fn weight_add(a: Weight, b: Weight) -> Weight {
    Weight { ref_time: sat_add(a.ref_time, b.ref_time), proof_size: sat_add(a.proof_size, b.proof_size) }
}

/// Both components scaled by `k`, each saturating.
pub open spec fn weight_scale(a: Weight, k: u64) -> Weight {
    Weight { ref_time: sat_mul(a.ref_time, k), proof_size: sat_mul(a.proof_size, k) }
}

/// Componentwise saturating difference of two weights.
pub open spec fn weight_sub(a: Weight, b: Weight) -> Weight {
    Weight { ref_time: sat_sub(a.ref_time, b.ref_time), proof_size: sat_sub(a.proof_size, b.proof_size) }
}

/// `a` is no larger than `b` in either component.
pub open spec fn weight_le(a: Weight, b: Weight) -> bool {
    a.ref_time <= b.ref_time && a.proof_size <= b.proof_size
}

fn u64_saturating_mul(a: u64, b: u64) -> (r: u64)
    ensures
        r == sat_mul(a, b),
{
    match a.checked_mul(b) {
        Some(v) => v,
        None => 0xffff_ffff_ffff_ffffu64,
    }
}

impl Weight {
    /// Builds a weight from its two components.
    pub fn from_parts(ref_time: u64, proof_size: u64) -> (r: Weight)
        ensures
            r.ref_time == ref_time,
            r.proof_size == proof_size,
    {
        Weight { ref_time, proof_size }
    }

    /// The weight that costs nothing.
    pub fn zero() -> (r: Weight)
        ensures
            r.ref_time == 0,
            r.proof_size == 0,
    {
        Weight { ref_time: 0, proof_size: 0 }
    }

    /// Componentwise saturating addition.
    pub fn saturating_add(self, rhs: Weight) -> (r: Weight)
        ensures
            r == weight_add(self, rhs),
    {
        Weight {
            ref_time: self.ref_time.saturating_add(rhs.ref_time),
            proof_size: self.proof_size.saturating_add(rhs.proof_size),
        }
    }

    /// Componentwise saturating subtraction.
    pub fn saturating_sub(self, rhs: Weight) -> (r: Weight)
        ensures
            r == weight_sub(self, rhs),
    {
        Weight {
            ref_time: self.ref_time.saturating_sub(rhs.ref_time),
            proof_size: self.proof_size.saturating_sub(rhs.proof_size),
        }
    }

    /// Both components multiplied by `scalar`, each saturating.
    pub fn saturating_mul(self, scalar: u64) -> (r: Weight)
        ensures
            r == weight_scale(self, scalar),
    {
        Weight {
            ref_time: u64_saturating_mul(self.ref_time, scalar),
            proof_size: u64_saturating_mul(self.proof_size, scalar),
        }
    }

    /// Whether `self` fits within `other` in both components.
    pub fn all_lte(&self, other: &Weight) -> (r: bool)
        ensures
            r == weight_le(*self, *other),
    {
        self.ref_time <= other.ref_time && self.proof_size <= other.proof_size
    }
}

} // verus!
