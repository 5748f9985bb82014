use benchmark_writer::batch::{measured, BenchmarkResult, BenchmarkSelector};
use benchmark_writer::error::Error;
use benchmark_writer::fit::{analyse, analysis_choice, Analysis, AnalysisChoice, MAX_MEASUREMENT};
use benchmark_writer::parameter::BenchmarkParameter;
use benchmark_writer::project::project;
use benchmark_writer::ready::is_fit_ready;
use benchmark_writer::record::BenchmarkCmd;

#[test]
fn strategy_names_are_resolved() {
    assert_eq!(analysis_choice(None), Ok(AnalysisChoice::MinSquares));
    assert_eq!(analysis_choice(Some("min-squares")), Ok(AnalysisChoice::MinSquares));
    assert_eq!(analysis_choice(Some("min_squares")), Ok(AnalysisChoice::MinSquares));
    assert_eq!(analysis_choice(Some("median-slopes")), Ok(AnalysisChoice::MedianSlopes));
    assert_eq!(analysis_choice(Some("median_slopes")), Ok(AnalysisChoice::MedianSlopes));
    assert_eq!(analysis_choice(Some("max")), Ok(AnalysisChoice::Max));
    assert_eq!(AnalysisChoice::default(), AnalysisChoice::MinSquares);
}

#[test]
fn unknown_strategy_name_is_a_configuration_error() {
    assert_eq!(analysis_choice(Some("")), Err(Error::Config));
    assert_eq!(analysis_choice(Some("Max")), Err(Error::Config));
    assert_eq!(analysis_choice(Some("min squares")), Err(Error::Config));
    let cmd = BenchmarkCmd { template: None, header: None, analysis: Some("mean".to_string()) };
    assert_eq!(cmd.analysis_choice(), Err(Error::Config));
    let cmd = BenchmarkCmd { template: None, header: None, analysis: Some("max".to_string()) };
    assert_eq!(cmd.analysis_choice(), Ok(AnalysisChoice::Max));
    let cmd = BenchmarkCmd { template: None, header: None, analysis: None };
    assert_eq!(cmd.analysis_choice(), Ok(AnalysisChoice::MinSquares));
}

fn line(base: u128, slope: u128, count: u32) -> (Vec<Vec<u32>>, Vec<u128>) {
    let mut xs = Vec::new();
    let mut ys = Vec::new();
    for i in 0..count {
        xs.push(vec![i]);
        ys.push(base + slope * u128::from(i));
    }
    (xs, ys)
}

#[test]
fn every_strategy_finds_an_exact_line() {
    let (xs, ys) = line(10, 3, 5);
    let min_squares = analyse(AnalysisChoice::MinSquares, &xs, &ys).unwrap();
    assert_eq!(min_squares, Analysis { base: 10, slopes: vec![3], errors: Some(vec![0]) });
    let median_slopes = analyse(AnalysisChoice::MedianSlopes, &xs, &ys).unwrap();
    assert_eq!(median_slopes, Analysis { base: 10, slopes: vec![3], errors: None });
    let max = analyse(AnalysisChoice::Max, &xs, &ys).unwrap();
    assert_eq!(max.base, 10);
    assert_eq!(max.slopes, vec![3]);
}

#[test]
fn time_is_fitted_in_the_unit_in_which_it_was_measured() {
    let (xs, ys) = line(2_000_000, 50_000, 8);
    let fit = analyse(AnalysisChoice::MinSquares, &xs, &ys).unwrap();
    assert_eq!(fit.base, 2_000_000);
    assert_eq!(fit.slopes, vec![50_000]);
}

#[test]
fn two_parameters_get_a_slope_each() {
    let mut xs = Vec::new();
    let mut ys = Vec::new();
    for a in 0..4u32 {
        for b in 0..4u32 {
            xs.push(vec![a, b]);
            ys.push(100 + 7 * u128::from(a) + 2 * u128::from(b));
        }
    }
    let fit = analyse(AnalysisChoice::MinSquares, &xs, &ys).unwrap();
    assert_eq!(fit.base, 100);
    assert_eq!(fit.slopes, vec![7, 2]);
    let fit = analyse(AnalysisChoice::MedianSlopes, &xs, &ys).unwrap();
    assert_eq!(fit.base, 100);
    assert_eq!(fit.slopes, vec![7, 2]);
}

#[test]
fn points_without_parameters_have_a_base_only() {
    let xs = vec![Vec::new(), Vec::new(), Vec::new()];
    let ys = vec![5, 9, 7];
    let fit = analyse(AnalysisChoice::MinSquares, &xs, &ys).unwrap();
    assert_eq!(fit.base, 7);
    assert!(fit.slopes.is_empty());
}

#[test]
fn points_that_cannot_be_fitted_get_no_model() {
    let (xs, ys) = line(10, 3, 5);
    assert!(is_fit_ready(&xs, &ys));
    // no point at all
    assert!(!is_fit_ready(&Vec::new(), &Vec::new()));
    assert_eq!(analyse(AnalysisChoice::MinSquares, &Vec::new(), &Vec::new()), None);
    // as many values as rows
    assert_eq!(analyse(AnalysisChoice::MinSquares, &xs, &ys[..4].to_vec()), None);
    // rows of one width
    let mut ragged = xs.clone();
    ragged[3] = vec![3, 3];
    assert_eq!(analyse(AnalysisChoice::MinSquares, &ragged, &ys), None);
    // a column that takes one value only
    let flat = vec![vec![2], vec![2], vec![2]];
    assert_eq!(analyse(AnalysisChoice::MinSquares, &flat, &vec![1, 2, 3]), None);
    assert_eq!(analyse(AnalysisChoice::MedianSlopes, &flat, &vec![1, 2, 3]), None);
    // a measurement that is too large
    let mut large = ys.clone();
    large[0] = MAX_MEASUREMENT + 1;
    assert_eq!(analyse(AnalysisChoice::MinSquares, &xs, &large), None);
    large[0] = MAX_MEASUREMENT;
    assert!(is_fit_ready(&xs, &large));
}

#[test]
fn median_slopes_need_a_sweep_of_every_parameter() {
    // every setting of the other parameter occurs once, and none with two
    // values of the swept one
    let xs = vec![vec![1, 1], vec![2, 2], vec![3, 3]];
    let ys = vec![10, 20, 30];
    assert!(is_fit_ready(&xs, &ys));
    assert_eq!(analyse(AnalysisChoice::MedianSlopes, &xs, &ys), None);
    assert_eq!(analyse(AnalysisChoice::Max, &xs, &ys), None);
    // one parameter at a time, the other at its largest
    let xs = vec![vec![1, 9], vec![5, 9], vec![9, 9], vec![9, 1], vec![9, 5]];
    let ys = vec![19, 23, 27, 11, 19];
    let fit = analyse(AnalysisChoice::MedianSlopes, &xs, &ys).unwrap();
    assert_eq!(fit.slopes, vec![1, 2]);
    assert_eq!(fit.base, 0);
}

#[test]
fn too_few_points_for_least_squares_give_no_slopes() {
    let (xs, ys) = line(10, 3, 2);
    let fit = analyse(AnalysisChoice::MinSquares, &xs, &ys).unwrap();
    assert!(fit.slopes.is_empty());
}

fn sample(components: Vec<(BenchmarkParameter, u32)>, time: u128, reads: u32) -> BenchmarkResult {
    BenchmarkResult {
        components,
        extrinsic_time: time,
        storage_root_time: time + 1,
        reads,
        repeat_reads: reads + 1,
        writes: reads + 2,
        repeat_writes: reads + 3,
        proof_size: 0,
    }
}

#[test]
fn metrics_are_read_off_the_samples() {
    let samples = vec![sample(Vec::new(), 100, 1), sample(Vec::new(), 200, 5)];
    assert_eq!(measured(&samples, BenchmarkSelector::ExtrinsicTime), vec![100, 200]);
    assert_eq!(measured(&samples, BenchmarkSelector::StorageRootTime), vec![101, 201]);
    assert_eq!(measured(&samples, BenchmarkSelector::Reads), vec![1, 5]);
    assert_eq!(measured(&samples, BenchmarkSelector::RepeatReads), vec![2, 6]);
    assert_eq!(measured(&samples, BenchmarkSelector::Writes), vec![3, 7]);
    assert_eq!(measured(&samples, BenchmarkSelector::RepeatWrites), vec![4, 8]);
    assert_eq!(samples[1].value(BenchmarkSelector::Reads), 5);
}

#[test]
fn points_hold_the_fitted_parameters_only() {
    let samples = vec![
        sample(vec![(BenchmarkParameter::a, 1), (BenchmarkParameter::z, 0), (BenchmarkParameter::b, 4)], 1, 1),
        sample(vec![(BenchmarkParameter::b, 5), (BenchmarkParameter::a, 2), (BenchmarkParameter::z, 0)], 1, 1),
    ];
    let params = vec![BenchmarkParameter::b, BenchmarkParameter::a];
    assert_eq!(project(&samples, &params), Some(vec![vec![4, 1], vec![5, 2]]));
    assert_eq!(project(&samples, &Vec::new()), Some(vec![Vec::new(), Vec::new()]));
    assert_eq!(project(&samples, &vec![BenchmarkParameter::c]), None);
    assert_eq!(project(&Vec::new(), &params), Some(Vec::new()));
}

#[test]
fn a_line_that_would_start_below_zero_starts_at_the_smallest_measurement() {
    let xs = vec![vec![1], vec![2], vec![3], vec![4], vec![5]];
    let ys = vec![1, 4, 9, 16, 25];
    let fit = analyse(AnalysisChoice::MinSquares, &xs, &ys).unwrap();
    assert_eq!(fit.base, 1);
    assert_eq!(fit.slopes.len(), 1);
    let fit = analyse(AnalysisChoice::Max, &xs, &ys).unwrap();
    assert_eq!(fit.slopes.len(), 1);
}

#[test]
fn the_largest_measurements_are_fitted() {
    let mut xs = Vec::new();
    let mut ys = Vec::new();
    for i in 0..8u32 {
        for _ in 0..4 {
            xs.push(vec![i]);
            ys.push(if i % 2 == 0 { MAX_MEASUREMENT } else { 0 });
        }
    }
    assert!(is_fit_ready(&xs, &ys));
    assert!(analyse(AnalysisChoice::MinSquares, &xs, &ys).is_some());
    assert!(analyse(AnalysisChoice::MedianSlopes, &xs, &ys).is_some());
    assert!(analyse(AnalysisChoice::Max, &xs, &ys).is_some());
}

#[test]
fn least_squares_need_more_different_rows_than_columns() {
    // three columns, two different rows: the fit would start again below zero
    let xs = vec![vec![1, 1, 1], vec![1, 1, 1], vec![2, 2, 2]];
    let ys = vec![0, 0, 10_000_000_000_000];
    assert!(is_fit_ready(&xs, &ys));
    assert_eq!(analyse(AnalysisChoice::MinSquares, &xs, &ys), None);
    assert_eq!(analyse(AnalysisChoice::Max, &xs, &ys), None);
    // three different rows for two columns
    let fit = analyse(AnalysisChoice::MedianSlopes, &vec![vec![1, 5], vec![2, 5], vec![2, 6]], &vec![3, 4, 6]);
    assert_eq!(fit.map(|fit| (fit.slopes.len(), fit.errors)), Some((2, None)));
    // four different rows for three columns
    let xs = vec![vec![1, 1, 1], vec![2, 1, 1], vec![1, 2, 1], vec![1, 1, 2], vec![2, 2, 2]];
    let ys = vec![6, 7, 8, 9, 12];
    let fit = analyse(AnalysisChoice::MinSquares, &xs, &ys).unwrap();
    assert_eq!(fit.base, 0);
    assert_eq!(fit.slopes, vec![1, 2, 3]);
}

#[test]
fn the_larger_of_both_strategies_is_taken_value_by_value() {
    let xs = vec![vec![0], vec![1], vec![2], vec![3], vec![4], vec![5]];
    let ys = vec![10, 10, 10, 40, 40, 40];
    let squares = analyse(AnalysisChoice::MinSquares, &xs, &ys).unwrap();
    let median = analyse(AnalysisChoice::MedianSlopes, &xs, &ys).unwrap();
    let max = analyse(AnalysisChoice::Max, &xs, &ys).unwrap();
    assert_eq!(max.base, squares.base.max(median.base));
    assert_eq!(max.slopes, vec![squares.slopes[0].max(median.slopes[0])]);
    assert_eq!(max.errors, squares.errors);
    assert_eq!(median.errors, None);
}

#[test]
fn no_points_that_are_handed_on_stop_a_fit() {
    let mut state: u64 = 2021;
    let mut next = move || {
        state = state.wrapping_mul(6364136223846793005).wrapping_add(1442695040888963407);
        state >> 33
    };
    let mut fitted = 0;
    for _ in 0..3000 {
        let width = (next() % 4) as usize + 1;
        let count = (next() % 12) as usize + 1;
        let span = [2u64, 3, 5, 1000][(next() % 4) as usize];
        let tied = next() % 3 == 0;
        let kind = next() % 3;
        let mut xs = Vec::new();
        let mut ys = Vec::new();
        for _ in 0..count {
            let first = (next() % span) as u32;
            let mut row = vec![first];
            for column in 1..width {
                row.push(if tied { first * (column as u32 % 2 + 1) } else { (next() % span) as u32 });
            }
            ys.push(match kind {
                0 => u128::from(next() % 100),
                1 => if next() % 2 == 0 { 0 } else { MAX_MEASUREMENT },
                _ => u128::from(first) * u128::from(first) * 10_000_000_000,
            });
            xs.push(row);
        }
        for choice in [AnalysisChoice::MinSquares, AnalysisChoice::MedianSlopes, AnalysisChoice::Max] {
            if analyse(choice, &xs, &ys).is_some() {
                fitted += 1;
            }
        }
    }
    assert!(fitted > 100);
}
