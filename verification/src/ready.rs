//! Checks that decide whether points may be handed to a fitting strategy.

use vstd::prelude::*;
use crate::fit::{
    column_swept, column_varies, distinct_rows, fit_ready, grid, is_first, is_pivot, pivot_varies,
    rows_suffice, same_others, support, sweeps_cover, MAX_MEASUREMENT, MAX_SAMPLES,
};

verus! {

/// The rows are equally wide and there is at least one.
pub open spec fn uniform(xs: Seq<Seq<u32>>) -> bool {
    &&& 0 < xs.len()
    &&& forall|i: int| 0 <= i < xs.len() ==> (#[trigger] xs[i]).len() == xs[0].len()
}

/// Whether two rows of the column take different values.
fn varies(xs: &Vec<Vec<u32>>, col: usize) -> (r: bool)
    requires
        uniform(grid(xs@)),
        col < grid(xs@)[0].len(),
    ensures
        r == column_varies(grid(xs@), col as int),
{
    let ghost all = grid(xs@);
    assert(all[0].len() == xs@[0]@.len());
    let first: u32 = xs[0][col];
    let mut b: usize = 1;
    while b < xs.len()
        invariant
            1 <= b <= xs.len(),
            all == grid(xs@),
            uniform(all),
            col < all[0].len(),
            first == all[0][col as int],
            forall|k: int| 0 <= k < b ==> (#[trigger] all[k])[col as int] == first,
        decreases xs.len() - b,
    {
        assert(all[b as int].len() == all[0].len());
        if xs[b][col] != first {
            assert(all[0][col as int] != all[b as int][col as int]);
            return true;
        }
        b += 1;
    }
    false
}

/// Whether the points can be fitted.
pub fn is_fit_ready(xs: &Vec<Vec<u32>>, ys: &Vec<u128>) -> (r: bool)
    ensures
        r == fit_ready(grid(xs@), ys@),
{
    let ghost all = grid(xs@);
    let n = xs.len();
    if n == 0 || n > MAX_SAMPLES || ys.len() != n {
        return false;
    }
    let width = xs[0].len();
    let mut i: usize = 0;
    while i < n
        invariant
            i <= n == xs.len(),
            all == grid(xs@),
            width == all[0].len(),
            forall|k: int| 0 <= k < i ==> (#[trigger] all[k]).len() == width,
        decreases n - i,
    {
        if xs[i].len() != width {
            assert(all[i as int].len() != all[0].len());
            return false;
        }
        i += 1;
    }
    let mut j: usize = 0;
    while j < n
        invariant
            j <= n == ys.len(),
            forall|k: int| 0 <= k < j ==> #[trigger] ys@[k] <= MAX_MEASUREMENT,
        decreases n - j,
    {
        if ys[j] > MAX_MEASUREMENT {
            assert(!(ys@[j as int] <= MAX_MEASUREMENT));
            return false;
        }
        j += 1;
    }
    let mut col: usize = 0;
    while col < width
        invariant
            col <= width,
            all == grid(xs@),
            uniform(all),
            width == all[0].len(),
            forall|c: int| 0 <= c < col ==> #[trigger] column_varies(all, c),
        decreases width - col,
    {
        if !varies(xs, col) {
            assert(!column_varies(all, col as int));
            return false;
        }
        col += 1;
    }
    true
}

/// Whether the two rows agree outside the column.
fn same_pattern(left: &Vec<u32>, right: &Vec<u32>, col: usize) -> (r: bool)
    requires
        left.len() == right.len(),
    ensures
        r == same_others(left@, right@, col as int),
{
    let mut j: usize = 0;
    while j < left.len()
        invariant
            j <= left.len() == right.len(),
            forall|k: int| 0 <= k < j && k != col ==> left@[k] == right@[k],
        decreases left.len() - j,
    {
        if j != col && left[j] != right[j] {
            return false;
        }
        j += 1;
    }
    true
}

/// How many rows agree with row `a` outside the column.
fn support_of(xs: &Vec<Vec<u32>>, a: usize, col: usize) -> (r: usize)
    requires
        uniform(grid(xs@)),
        a < xs.len(),
    ensures
        r == support(grid(xs@), a as int, col as int, xs.len() as int),
        r <= xs.len(),
{
    let ghost all = grid(xs@);
    let mut count: usize = 0;
    let mut b: usize = 0;
    while b < xs.len()
        invariant
            b <= xs.len(),
            a < xs.len(),
            all == grid(xs@),
            uniform(all),
            count == support(all, a as int, col as int, b as int),
            count <= b,
        decreases xs.len() - b,
    {
        assert(all[a as int].len() == all[0].len());
        assert(all[b as int].len() == all[0].len());
        if same_pattern(&xs[a], &xs[b], col) {
            count += 1;
        }
        b += 1;
    }
    count
}

/// Whether some row agrees with row `a` outside the column and differs from it
/// in the column.
fn varies_around(xs: &Vec<Vec<u32>>, a: usize, col: usize) -> (r: bool)
    requires
        uniform(grid(xs@)),
        a < xs.len(),
        col < grid(xs@)[0].len(),
    ensures
        r == pivot_varies(grid(xs@), a as int, col as int),
{
    let ghost all = grid(xs@);
    let mut c: usize = 0;
    while c < xs.len()
        invariant
            c <= xs.len(),
            a < xs.len(),
            all == grid(xs@),
            uniform(all),
            col < all[0].len(),
            forall|k: int|
                0 <= k < c ==> !(same_others(all[a as int], #[trigger] all[k], col as int)
                    && all[k][col as int] != all[a as int][col as int]),
        decreases xs.len() - c,
    {
        assert(all[a as int].len() == all[0].len());
        assert(all[c as int].len() == all[0].len());
        if same_pattern(&xs[a], &xs[c], col) && xs[c][col] != xs[a][col] {
            return true;
        }
        c += 1;
    }
    false
}

/// Whether the column is swept.
fn is_swept(xs: &Vec<Vec<u32>>, col: usize) -> (r: bool)
    requires
        uniform(grid(xs@)),
        col < grid(xs@)[0].len(),
    ensures
        r == column_swept(grid(xs@), col as int),
{
    let ghost all = grid(xs@);
    let ghost n = xs.len() as int;
    let mut best: usize = 0;
    let ghost mut top: int = 0;
    let mut a: usize = 0;
    while a < xs.len()
        invariant
            a <= xs.len(),
            n == xs.len(),
            all == grid(xs@),
            uniform(all),
            forall|b: int| 0 <= b < a ==> #[trigger] support(all, b, col as int, n) <= best,
            a > 0 ==> 0 <= top < a && support(all, top, col as int, n) == best,
        decreases xs.len() - a,
    {
        let here = support_of(xs, a, col);
        if a == 0 || here > best {
            best = here;
            proof {
                top = a as int;
            }
        }
        a += 1;
    }
    let mut p: usize = 0;
    while p < xs.len()
        invariant
            p <= xs.len(),
            n == xs.len(),
            n > 0,
            all == grid(xs@),
            uniform(all),
            col < all[0].len(),
            forall|b: int| 0 <= b < n ==> #[trigger] support(all, b, col as int, n) <= best,
            0 <= top < n && support(all, top, col as int, n) == best,
            forall|k: int|
                0 <= k < p && #[trigger] is_pivot(all, k, col as int) ==> pivot_varies(
                    all,
                    k,
                    col as int,
                ),
        decreases xs.len() - p,
    {
        let here = support_of(xs, p, col);
        if here == best {
            assert(is_pivot(all, p as int, col as int));
            if !varies_around(xs, p, col) {
                return false;
            }
        } else {
            assert(support(all, top, col as int, n) > support(all, p as int, col as int, n));
            assert(!is_pivot(all, p as int, col as int));
        }
        p += 1;
    }
    true
}

/// Whether every column is swept.
pub(crate) fn covers_sweeps(xs: &Vec<Vec<u32>>) -> (r: bool)
    requires
        uniform(grid(xs@)),
    ensures
        r == sweeps_cover(grid(xs@)),
{
    let ghost all = grid(xs@);
    let width = xs[0].len();
    let mut col: usize = 0;
    while col < width
        invariant
            col <= width,
            all == grid(xs@),
            uniform(all),
            width == all[0].len(),
            forall|c: int| 0 <= c < col ==> #[trigger] column_swept(all, c),
        decreases width - col,
    {
        if !is_swept(xs, col) {
            return false;
        }
        col += 1;
    }
    true
}

/// Whether the two rows are equal.
fn same_row(left: &Vec<u32>, right: &Vec<u32>) -> (r: bool)
    requires
        left.len() == right.len(),
    ensures
        r == (left@ == right@),
{
    let mut j: usize = 0;
    while j < left.len()
        invariant
            j <= left.len() == right.len(),
            forall|k: int| 0 <= k < j ==> left@[k] == right@[k],
        decreases left.len() - j,
    {
        if left[j] != right[j] {
            return false;
        }
        j += 1;
    }
    assert(left@ =~= right@);
    true
}

/// Whether no earlier row equals the row.
fn comes_first(xs: &Vec<Vec<u32>>, i: usize) -> (r: bool)
    requires
        uniform(grid(xs@)),
        i < xs.len(),
    ensures
        r == is_first(grid(xs@), i as int),
{
    let ghost all = grid(xs@);
    let mut j: usize = 0;
    while j < i
        invariant
            j <= i < xs.len(),
            all == grid(xs@),
            uniform(all),
            forall|k: int| 0 <= k < j ==> (#[trigger] all[k]) != all[i as int],
        decreases i - j,
    {
        assert(all[i as int].len() == all[0].len());
        assert(all[j as int].len() == all[0].len());
        if same_row(&xs[j], &xs[i]) {
            return false;
        }
        j += 1;
    }
    true
}

/// Whether there are more different rows than columns.
pub(crate) fn has_rows(xs: &Vec<Vec<u32>>) -> (r: bool)
    requires
        uniform(grid(xs@)),
    ensures
        r == rows_suffice(grid(xs@)),
{
    let ghost all = grid(xs@);
    let mut count: usize = 0;
    let mut i: usize = 0;
    while i < xs.len()
        invariant
            i <= xs.len(),
            all == grid(xs@),
            uniform(all),
            count == distinct_rows(all, i as int),
            count <= i,
        decreases xs.len() - i,
    {
        if comes_first(xs, i) {
            count += 1;
        }
        i += 1;
    }
    count > xs[0].len()
}

} // verus!
