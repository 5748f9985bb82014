//! Fitting a linear cost model to measured points.
//!
//! A point is a row of parameter values and the value measured under them.
//! The fitting itself is done by `frame_benchmarking`; this module decides which
//! inputs may be handed to it and names what comes back.

use vstd::prelude::*;
use vstd::string::StringExecFns;
use crate::error::Error;
use crate::ready::{covers_sweeps, has_rows, is_fit_ready};

verus! {

/// The strategies by which a model can be fitted.
#[derive(Clone, Copy, Debug, PartialEq, Eq, Structural)]
pub enum AnalysisChoice {
    /// Least squares over the interquartile range of the measurements.
    MinSquares,
    /// The median of the pairwise slopes.
    MedianSlopes,
    /// The larger of what the other two give, value by value.
    Max,
}

impl Default for AnalysisChoice {
    fn default() -> (r: Self)
        ensures
            r == AnalysisChoice::MinSquares,
    {
        AnalysisChoice::MinSquares
    }
}

/// A fitted model: a base value, one slope for each column of the points, and
/// the slopes' standard errors where the strategy computes them.
#[derive(Clone, Debug, PartialEq, Eq)]
pub struct Analysis {
    pub base: u128,
    pub slopes: Vec<u128>,
    pub errors: Option<Vec<u128>>,
}

/// A model as plain values: base, slopes, errors.
pub type Model = (u128, Seq<u128>, Option<Seq<u128>>);

impl View for Analysis {
    type V = Model;

    open spec fn view(&self) -> Model {
        (
            self.base,
            self.slopes@,
            match self.errors {
                Some(errors) => Some(errors@),
                None => None,
            },
        )
    }
}

/// What an optional model says.
pub open spec fn model_of(fit: Option<Analysis>) -> Option<Model> {
    match fit {
        Some(analysis) => Some(analysis@),
        None => None,
    }
}

/// There is a model, and it has so many slopes and no errors.
pub open spec fn slopes_only(fit: Option<Analysis>, width: nat) -> bool {
    fit matches Some(analysis) && analysis.slopes@.len() == width && analysis.errors is None
}

/// The rows of parameter values that a vector of rows holds.
pub open spec fn grid(rows: Seq<Vec<u32>>) -> Seq<Seq<u32>> {
    Seq::new(rows.len(), |i: int| rows[i]@)
}

/// The most points that are handed to a fit.
pub const MAX_SAMPLES: usize = 0xffff_ffff;

/// The largest measured value that is handed to a fit.
pub const MAX_MEASUREMENT: u128 = 0xffff_ffff_ffff;

/// The strategy that a configured name selects; no name selects the default.
pub open spec fn choice_named(name: Option<Seq<char>>) -> Option<AnalysisChoice> {
    match name {
        None => Some(AnalysisChoice::MinSquares),
        Some(text) => if text == "min-squares"@ || text == "min_squares"@ {
            Some(AnalysisChoice::MinSquares)
        } else if text == "median-slopes"@ || text == "median_slopes"@ {
            Some(AnalysisChoice::MedianSlopes)
        } else if text == "max"@ {
            Some(AnalysisChoice::Max)
        } else {
            None
        },
    }
}

/// The text of an optional name.
pub open spec fn text_of(name: Option<&str>) -> Option<Seq<char>> {
    match name {
        Some(text) => Some(text@),
        None => None,
    }
}

/// Whether two texts are the same.
fn same_text(left: &str, right: &str) -> (r: bool)
    ensures
        r == (left@ == right@),
{
    let first = String::from_str(left);
    let second = String::from_str(right);
    first == second
}

/// Resolves the configured strategy name. An unknown name is a configuration
/// error.
pub fn analysis_choice(name: Option<&str>) -> (r: Result<AnalysisChoice, Error>)
    ensures
        r == match choice_named(text_of(name)) {
            Some(choice) => Ok::<AnalysisChoice, Error>(choice),
            None => Err(Error::Config),
        },
{
    match name {
        None => Ok(AnalysisChoice::MinSquares),
        Some(text) => {
            if same_text(text, "min-squares") || same_text(text, "min_squares") {
                Ok(AnalysisChoice::MinSquares)
            } else if same_text(text, "median-slopes") || same_text(text, "median_slopes") {
                Ok(AnalysisChoice::MedianSlopes)
            } else if same_text(text, "max") {
                Ok(AnalysisChoice::Max)
            } else {
                Err(Error::Config)
            }
        },
    }
}

/// Two rows of the column take different values.
pub open spec fn column_varies(xs: Seq<Seq<u32>>, col: int) -> bool {
    exists|a: int, b: int|
        0 <= a < xs.len() && 0 <= b < xs.len() && (#[trigger] xs[a])[col] != (#[trigger] xs[b])[col]
}

/// The points can be fitted: there is at least one and not too many, the rows
/// are equally wide, no measurement is too large, and every column takes at
/// least two values.
pub open spec fn fit_ready(xs: Seq<Seq<u32>>, ys: Seq<u128>) -> bool {
    &&& 0 < xs.len() <= MAX_SAMPLES
    &&& xs.len() == ys.len()
    &&& forall|i: int| 0 <= i < xs.len() ==> (#[trigger] xs[i]).len() == xs[0].len()
    &&& forall|i: int| 0 <= i < ys.len() ==> #[trigger] ys[i] <= MAX_MEASUREMENT
    &&& forall|col: int| 0 <= col < xs[0].len() ==> #[trigger] column_varies(xs, col)
}

/// The two rows agree outside the column.
pub open spec fn same_others(left: Seq<u32>, right: Seq<u32>, col: int) -> bool {
    forall|j: int| 0 <= j < left.len() && j != col ==> left[j] == right[j]
}

/// How many of the first `upto` rows agree with row `a` outside the column.
pub open spec fn support(xs: Seq<Seq<u32>>, a: int, col: int, upto: int) -> nat
    decreases upto,
{
    if upto <= 0 {
        0
    } else {
        support(xs, a, col, upto - 1) + if same_others(xs[a], xs[upto - 1], col) {
            1nat
        } else {
            0nat
        }
    }
}

/// No row has more support than row `a`.
pub open spec fn is_pivot(xs: Seq<Seq<u32>>, a: int, col: int) -> bool {
    forall|b: int|
        0 <= b < xs.len() ==> #[trigger] support(xs, b, col, xs.len() as int) <= support(
            xs,
            a,
            col,
            xs.len() as int,
        )
}

/// Some row agrees with row `a` outside the column and differs from it in the
/// column.
pub open spec fn pivot_varies(xs: Seq<Seq<u32>>, a: int, col: int) -> bool {
    exists|c: int|
        0 <= c < xs.len() && same_others(xs[a], #[trigger] xs[c], col) && xs[c][col] != xs[a][col]
}

/// Around every setting of the other columns that occurs most often, the
/// column takes at least two values.
pub open spec fn column_swept(xs: Seq<Seq<u32>>, col: int) -> bool {
    forall|a: int| 0 <= a < xs.len() && #[trigger] is_pivot(xs, a, col) ==> pivot_varies(xs, a, col)
}

/// Every column is swept.
pub open spec fn sweeps_cover(xs: Seq<Seq<u32>>) -> bool {
    forall|col: int| 0 <= col < xs[0].len() ==> #[trigger] column_swept(xs, col)
}

/// No earlier row equals row `i`.
pub open spec fn is_first(xs: Seq<Seq<u32>>, i: int) -> bool {
    forall|j: int| 0 <= j < i ==> (#[trigger] xs[j]) != xs[i]
}

/// How many different rows are among the first `upto`.
pub open spec fn distinct_rows(xs: Seq<Seq<u32>>, upto: int) -> nat
    decreases upto,
{
    if upto <= 0 {
        0
    } else {
        distinct_rows(xs, upto - 1) + if is_first(xs, upto - 1) {
            1nat
        } else {
            0nat
        }
    }
}

/// There are more different rows than columns.
pub open spec fn rows_suffice(xs: Seq<Seq<u32>>) -> bool {
    distinct_rows(xs, xs.len() as int) > xs[0].len()
}

/// The points can be handed to the strategy.
pub open spec fn ready_for(choice: AnalysisChoice, xs: Seq<Seq<u32>>, ys: Seq<u128>) -> bool {
    match choice {
        AnalysisChoice::MinSquares => fit_ready(xs, ys) && rows_suffice(xs),
        AnalysisChoice::MedianSlopes => fit_ready(xs, ys) && sweeps_cover(xs),
        AnalysisChoice::Max => fit_ready(xs, ys) && rows_suffice(xs) && sweeps_cover(xs),
    }
}

/// What `frame_benchmarking::Analysis::min_squares_iqr` makes of the points.
pub uninterp spec fn min_squares_model(xs: Seq<Seq<u32>>, ys: Seq<u128>) -> Option<Model>;

/// What `frame_benchmarking::Analysis::median_slopes` makes of the points.
pub uninterp spec fn median_slopes_model(xs: Seq<Seq<u32>>, ys: Seq<u128>) -> Option<Model>;

/// The larger of two values.
pub open spec fn larger(left: u128, right: u128) -> u128 {
    if left >= right {
        left
    } else {
        right
    }
}

/// The larger of two models, value by value: the larger base, the larger
/// slope at every position that both have, and the errors of the second.
/// None where one of the two is missing.
pub open spec fn larger_of(first: Option<Model>, second: Option<Model>) -> Option<Model> {
    match (first, second) {
        (Some(one), Some(other)) => Some(
            (
                larger(one.0, other.0),
                Seq::new(
                    if one.1.len() <= other.1.len() {
                        one.1.len()
                    } else {
                        other.1.len()
                    },
                    |i: int| larger(one.1[i], other.1[i]),
                ),
                other.2,
            ),
        ),
        _ => None,
    }
}

/// The model that the strategy fits to the points; none where the points
/// cannot be handed to it.
pub open spec fn fitted(choice: AnalysisChoice, xs: Seq<Seq<u32>>, ys: Seq<u128>) -> Option<
    Model,
> {
    if !ready_for(choice, xs, ys) {
        None
    } else {
        match choice {
            AnalysisChoice::MinSquares => min_squares_model(xs, ys),
            AnalysisChoice::MedianSlopes => median_slopes_model(xs, ys),
            AnalysisChoice::Max => larger_of(
                median_slopes_model(xs, ys),
                min_squares_model(xs, ys),
            ),
        }
    }
}

/// Calls `frame_benchmarking::Analysis::min_squares_iqr` on the points and
/// hands back base, slopes and errors as the call gave them. The points go in
/// through the crate's `storage_root_time` field, the one `u128` measurement
/// that the crate reports in the unit in which it was given; the parameter
/// label of every column is a placeholder, since the crate only echoes labels.
/// The call indexes the first point and reads every row by the first row's
/// columns, and it sums squared deviations of the measurements in `u128`:
/// hence the first demand on the points. Where its first fit starts below
/// zero, the call fits again with a column of zeros in place of the constant
/// one and asserts that this column's coefficient is zero. Every different
/// row keeps a measurement when the call trims the measurements of equal
/// rows, so with more different rows than columns the fitted matrix has at
/// least as many rows as columns. Its decomposition then clears the leading
/// column of zeros before anything mixes columns, and the coefficient is
/// zero exactly: hence the second demand.
#[verifier::external_body]
fn min_squares_iqr(xs: &Vec<Vec<u32>>, ys: &Vec<u128>) -> (r: Option<Analysis>)
    requires
        fit_ready(grid(xs@), ys@),
        rows_suffice(grid(xs@)),
    ensures
        model_of(r) == min_squares_model(grid(xs@), ys@),
{
    let points: Vec<frame_benchmarking::BenchmarkResult> = xs.iter().zip(ys.iter()).map(
        |(x, y)| frame_benchmarking::BenchmarkResult {
            components: x.iter().map(|v| (frame_benchmarking::BenchmarkParameter::a, *v)).collect(),
            storage_root_time: *y,
            ..Default::default()
        },
    ).collect();
    let selector = frame_benchmarking::BenchmarkSelector::StorageRootTime;
    frame_benchmarking::Analysis::min_squares_iqr(&points, selector).map(
        |fit| Analysis { base: fit.base, slopes: fit.slopes, errors: fit.errors },
    )
}

/// Calls `frame_benchmarking::Analysis::median_slopes` on the points and hands
/// back base, slopes and errors as the call gave them. The points go in as in
/// [`min_squares_iqr`]. The call needs, for every column, two different values
/// around the most frequent setting of the other columns; of several settings
/// that are equally frequent it takes one, so the demand is made of each of
/// them. On such points the call always gives a model, with one slope for
/// every column and without errors.
#[verifier::external_body]
fn median_slopes(xs: &Vec<Vec<u32>>, ys: &Vec<u128>) -> (r: Option<Analysis>)
    requires
        fit_ready(grid(xs@), ys@),
        sweeps_cover(grid(xs@)),
    ensures
        model_of(r) == median_slopes_model(grid(xs@), ys@),
        slopes_only(r, grid(xs@)[0].len()),
{
    let points: Vec<frame_benchmarking::BenchmarkResult> = xs.iter().zip(ys.iter()).map(
        |(x, y)| frame_benchmarking::BenchmarkResult {
            components: x.iter().map(|v| (frame_benchmarking::BenchmarkParameter::a, *v)).collect(),
            storage_root_time: *y,
            ..Default::default()
        },
    ).collect();
    let selector = frame_benchmarking::BenchmarkSelector::StorageRootTime;
    frame_benchmarking::Analysis::median_slopes(&points, selector).map(
        |fit| Analysis { base: fit.base, slopes: fit.slopes, errors: fit.errors },
    )
}

/// Calls `frame_benchmarking::Analysis::max` on the points and hands back
/// base, slopes and errors as the call gave them. The points go in as in
/// [`min_squares_iqr`]. The call runs both other strategies on the points,
/// hence both their demands, and gives none where one of them gives none;
/// else the larger base, the larger slope at every position, and the errors
/// of the least squares.
#[verifier::external_body]
fn max_of_both(xs: &Vec<Vec<u32>>, ys: &Vec<u128>) -> (r: Option<Analysis>)
    requires
        fit_ready(grid(xs@), ys@),
        rows_suffice(grid(xs@)),
        sweeps_cover(grid(xs@)),
    ensures
        model_of(r) == larger_of(
            median_slopes_model(grid(xs@), ys@),
            min_squares_model(grid(xs@), ys@),
        ),
{
    let points: Vec<frame_benchmarking::BenchmarkResult> = xs.iter().zip(ys.iter()).map(
        |(x, y)| frame_benchmarking::BenchmarkResult {
            components: x.iter().map(|v| (frame_benchmarking::BenchmarkParameter::a, *v)).collect(),
            storage_root_time: *y,
            ..Default::default()
        },
    ).collect();
    let selector = frame_benchmarking::BenchmarkSelector::StorageRootTime;
    frame_benchmarking::Analysis::max(&points, selector).map(
        |fit| Analysis { base: fit.base, slopes: fit.slopes, errors: fit.errors },
    )
}

/// Fits a model to the points by the chosen strategy. Points that cannot be
/// handed to the strategy get no model. The median of slopes fits every
/// set of points that can be handed to it, with one slope for every column.
pub fn analyse(choice: AnalysisChoice, xs: &Vec<Vec<u32>>, ys: &Vec<u128>) -> (r: Option<Analysis>)
    ensures
        model_of(r) == fitted(choice, grid(xs@), ys@),
        choice == AnalysisChoice::MedianSlopes && ready_for(choice, grid(xs@), ys@) ==> slopes_only(
            r,
            grid(xs@)[0].len(),
        ),
{
    if !is_fit_ready(xs, ys) {
        return None;
    }
    match choice {
        AnalysisChoice::MinSquares => {
            if has_rows(xs) {
                min_squares_iqr(xs, ys)
            } else {
                None
            }
        },
        AnalysisChoice::MedianSlopes => {
            if covers_sweeps(xs) {
                median_slopes(xs, ys)
            } else {
                None
            }
        },
        AnalysisChoice::Max => {
            if has_rows(xs) && covers_sweeps(xs) {
                max_of_both(xs, ys)
            } else {
                None
            }
        },
    }
}

} // verus!
