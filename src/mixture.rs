//! Decisions of the Gaussian mixture that do not depend on arithmetic:
//! shape validation, hard assignment of samples to components, and
//! detection of collapsed components.
//!
//! Quantities are handed in as `u64` keys whose order is that of the values
//! they stand for, such as the bit patterns of non-negative IEEE-754 numbers
//! (responsibilities and their column sums are never negative).
use vstd::prelude::*;
use crate::surrogates::{decimal, push_decimal};

verus! {

/// `i` is the position of the largest element of `s`, the first one on ties.
pub open spec fn is_first_argmax(s: Seq<u64>, i: int) -> bool {
    &&& 0 <= i < s.len()
    &&& forall|j: int| 0 <= j < s.len() ==> s[j] <= s[i]
    &&& forall|j: int| 0 <= j < i ==> s[j] < s[i]
}

/// `i` is the position of the smallest element of `s`, the first one on ties.
pub open spec fn is_first_argmin(s: Seq<u64>, i: int) -> bool {
    &&& 0 <= i < s.len()
    &&& forall|j: int| 0 <= j < s.len() ==> s[i] <= s[j]
    &&& forall|j: int| 0 <= j < i ==> s[i] < s[j]
}

/// Errors of the Gaussian mixture.
#[derive(Clone, Copy, Debug, PartialEq, Eq, Structural)]
pub enum MixtureError {
    /// The component at this index carries (almost) no weight.
    EmptyCluster(usize),
    /// Weights, means and covariances do not describe the same components.
    ShapeMismatch,
}

/// Position of the first largest key of a row.
pub fn first_argmax(row: &Vec<u64>) -> (r: usize)
    requires
        row@.len() > 0,
    ensures
        is_first_argmax(row@, r as int),
{
    let mut best: usize = 0;
    let mut i: usize = 1;
    while i < row.len()
        invariant
            row@.len() > 0,
            1 <= i <= row@.len(),
            best < i,
            forall|j: int| 0 <= j < i ==> row@[j] <= row@[best as int],
            forall|j: int| 0 <= j < best ==> row@[j] < row@[best as int],
        decreases row@.len() - i,
    {
        if row[i] > row[best] {
            best = i;
        }
        i += 1;
    }
    best
}

/// Position of the first smallest key.
pub fn first_argmin(s: &Vec<u64>) -> (r: usize)
    requires
        s@.len() > 0,
    ensures
        is_first_argmin(s@, r as int),
{
    let mut best: usize = 0;
    let mut i: usize = 1;
    while i < s.len()
        invariant
            s@.len() > 0,
            1 <= i <= s@.len(),
            best < i,
            forall|j: int| 0 <= j < i ==> s@[best as int] <= s@[j],
            forall|j: int| 0 <= j < best ==> s@[best as int] < s@[j],
        decreases s@.len() - i,
    {
        if s[i] < s[best] {
            best = i;
        }
        i += 1;
    }
    best
}

/// Hard assignment of each sample to the component of highest responsibility,
/// the lowest index on ties. Row `n` holds the keys of sample `n`'s
/// responsibilities, one per component.
pub fn hard_assignments(probas: &Vec<Vec<u64>>) -> (r: Vec<usize>)
    requires
        forall|n: int| 0 <= n < probas@.len() ==> #[trigger] probas@[n]@.len() > 0,
    ensures
        r@.len() == probas@.len(),
        forall|n: int| 0 <= n < probas@.len() ==> is_first_argmax(#[trigger] probas@[n]@, r@[n] as int),
{
    let mut r: Vec<usize> = Vec::new();
    let mut n: usize = 0;
    while n < probas.len()
        invariant
            n <= probas@.len(),
            r@.len() == n,
            forall|m: int| 0 <= m < probas@.len() ==> #[trigger] probas@[m]@.len() > 0,
            forall|m: int| 0 <= m < n ==> is_first_argmax(#[trigger] probas@[m]@, r@[m] as int),
        decreases probas@.len() - n,
    {
        let k = first_argmax(&probas[n]);
        r.push(k);
        n += 1;
    }
    r
}

/// Refuses a parameter estimation in which a component collapsed: `nk[k]` is
/// the key of the summed responsibility of component `k`, `threshold` that of
/// the smallest weight a component may keep. The error names the first
/// component of least weight.
pub fn check_no_empty_cluster(nk: &Vec<u64>, threshold: u64) -> (r: Result<(), MixtureError>)
    ensures
        r is Ok <==> forall|k: int| 0 <= k < nk@.len() ==> threshold <= #[trigger] nk@[k],
        r matches Err(e) ==> (e matches MixtureError::EmptyCluster(i) && is_first_argmin(nk@, i as int) && nk@[i as int] < threshold),
{
    if nk.len() == 0 {
        return Ok(());
    }
    let i = first_argmin(nk);
    if nk[i] < threshold {
        Err(MixtureError::EmptyCluster(i))
    } else {
        Ok(())
    }
}

/// Checks that `n_weights` weights, a `means_shape` matrix of means and a
/// `cov_shape` tensor of covariances describe the same components in the same
/// dimension; returns the number of components and the dimension.
pub fn check_mixture_shapes(
    n_weights: usize,
    means_shape: (usize, usize),
    cov_shape: (usize, usize, usize),
) -> (r: Result<(usize, usize), MixtureError>)
    ensures
        r is Ok <==> (means_shape.0 == n_weights && cov_shape.0 == n_weights && cov_shape.1
            == means_shape.1 && cov_shape.2 == means_shape.1),
        r matches Ok(p) ==> p == (n_weights, means_shape.1),
        r matches Err(e) ==> e == MixtureError::ShapeMismatch,
{
    if means_shape.0 == n_weights && cov_shape.0 == n_weights && cov_shape.1 == means_shape.1
        && cov_shape.2 == means_shape.1 {
        Ok((n_weights, means_shape.1))
    } else {
        Err(MixtureError::ShapeMismatch)
    }
}

pub open spec fn mixture_error_message(e: MixtureError) -> Seq<char> {
    match e {
        MixtureError::EmptyCluster(i) => "Cluster "@ + decimal(i as nat)
            + " has no more point. Consider decreasing number of clusters or change initialization."@,
        MixtureError::ShapeMismatch => "Weights, means and covariances have inconsistent shapes"@,
    }
}

impl MixtureError {
    pub fn message(&self) -> (r: String)
        ensures
            r@ == mixture_error_message(*self),
    {
        match self {
            MixtureError::EmptyCluster(i) => {
                let mut r = String::from_str("Cluster ");
                push_decimal(&mut r, *i);
                r.append(
                    " has no more point. Consider decreasing number of clusters or change initialization.",
                );
                r
            },
            MixtureError::ShapeMismatch => {
                String::from_str("Weights, means and covariances have inconsistent shapes")
            },
        }
    }
}

} // verus!
