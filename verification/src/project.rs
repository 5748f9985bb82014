//! The points of a fit: the samples' values of the parameters that are fitted.

use vstd::prelude::*;
use crate::batch::{assignments, Assignment, BenchmarkResult};
use crate::classify::{lookup, value_of};
use crate::fit::grid;
use crate::parameter::BenchmarkParameter;

verus! {

/// The row gives every one of the parameters a value.
pub open spec fn row_complete(row: Seq<Assignment>, params: Seq<BenchmarkParameter>) -> bool {
    forall|c: int| 0 <= c < params.len() ==> (#[trigger] value_of(row, params[c])) is Some
}

/// The row's values of the parameters, in the parameters' order.
pub open spec fn project_row(row: Seq<Assignment>, params: Seq<BenchmarkParameter>) -> Seq<u32> {
    Seq::new(
        params.len(),
        |c: int|
            match value_of(row, params[c]) {
                Some(value) => value,
                None => 0u32,
            },
    )
}

/// Every row's values of the parameters; none where a row lacks one.
pub open spec fn projected(rows: Seq<Seq<Assignment>>, params: Seq<BenchmarkParameter>) -> Option<
    Seq<Seq<u32>>,
> {
    if forall|i: int| 0 <= i < rows.len() ==> #[trigger] row_complete(rows[i], params) {
        Some(Seq::new(rows.len(), |i: int| project_row(rows[i], params)))
    } else {
        None
    }
}

/// What an optional grid of values holds.
pub open spec fn grid_of(rows: Option<Vec<Vec<u32>>>) -> Option<Seq<Seq<u32>>> {
    match rows {
        Some(values) => Some(grid(values@)),
        None => None,
    }
}

/// The sample's values of the parameters; none where it lacks one.
fn project_sample(sample: &BenchmarkResult, params: &Vec<BenchmarkParameter>) -> (r: Option<
    Vec<u32>,
>)
    ensures
        match r {
            Some(values) => row_complete(sample.components@, params@) && values@ == project_row(
                sample.components@,
                params@,
            ),
            None => !row_complete(sample.components@, params@),
        },
{
    let ghost row = sample.components@;
    let mut out: Vec<u32> = Vec::new();
    let mut c: usize = 0;
    while c < params.len()
        invariant
            c <= params.len(),
            row == sample.components@,
            out.len() == c,
            forall|k: int| 0 <= k < c ==> (#[trigger] value_of(row, params@[k])) == Some(out@[k]),
        decreases params.len() - c,
    {
        match lookup(&sample.components, params[c]) {
            Some(value) => {
                out.push(value);
            },
            None => {
                assert(value_of(row, params@[c as int]) is None);
                return None;
            },
        }
        c += 1;
    }
    assert(out@ =~= project_row(row, params@));
    Some(out)
}

/// The samples' values of the parameters, sample by sample; none where a
/// sample lacks one.
pub fn project(samples: &Vec<BenchmarkResult>, params: &Vec<BenchmarkParameter>) -> (r: Option<
    Vec<Vec<u32>>,
>)
    ensures
        grid_of(r) == projected(assignments(samples@), params@),
{
    let ghost rows = assignments(samples@);
    let mut out: Vec<Vec<u32>> = Vec::new();
    let mut i: usize = 0;
    while i < samples.len()
        invariant
            i <= samples.len(),
            rows == assignments(samples@),
            out.len() == i,
            forall|k: int| 0 <= k < i ==> #[trigger] row_complete(rows[k], params@),
            forall|k: int| 0 <= k < i ==> (#[trigger] out@[k])@ == project_row(rows[k], params@),
        decreases samples.len() - i,
    {
        match project_sample(&samples[i], params) {
            Some(values) => {
                out.push(values);
            },
            None => {
                assert(!row_complete(rows[i as int], params@));
                return None;
            },
        }
        i += 1;
    }
    assert(grid(out@) =~= Seq::new(rows.len(), |i: int| project_row(rows[i], params@)));
    Some(out)
}

} // verus!
