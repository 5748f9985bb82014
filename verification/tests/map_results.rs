use benchmark_writer::batch::{BenchmarkBatchSplitResults, BenchmarkResult};
use benchmark_writer::classify::Component;
use benchmark_writer::fit::AnalysisChoice;
use benchmark_writer::group::map_results;
use benchmark_writer::parameter::BenchmarkParameter;
use benchmark_writer::report::{BenchmarkData, ComponentSlope};

fn test_data(
    pallet: &[u8],
    benchmark: &[u8],
    param: BenchmarkParameter,
    base: u32,
    slope: u32,
) -> BenchmarkBatchSplitResults {
    let mut results = Vec::new();
    for i in 0..5 {
        results.push(BenchmarkResult {
            components: vec![(param, i), (BenchmarkParameter::z, 0)],
            extrinsic_time: (base + slope * i).into(),
            storage_root_time: (base + slope * i).into(),
            reads: (base + slope * i).into(),
            repeat_reads: 0,
            writes: (base + slope * i).into(),
            repeat_writes: 0,
            proof_size: 0,
        })
    }

    return BenchmarkBatchSplitResults {
        pallet: String::from_utf8([pallet.to_vec(), b"_pallet".to_vec()].concat()).unwrap(),
        instance: String::from_utf8(b"instance".to_vec()).unwrap(),
        benchmark: String::from_utf8([benchmark.to_vec(), b"_benchmark".to_vec()].concat())
            .unwrap(),
        time_results: results.clone(),
        db_results: results,
    };
}

fn check_data(benchmark: &BenchmarkData, component: &str, base: u128, slope: u128) {
    assert_eq!(
        benchmark.components,
        vec![
            Component { name: component.to_string(), is_used: true },
            Component { name: "z".to_string(), is_used: false },
        ],
    );
    // Weights multiplied by 1,000
    assert_eq!(benchmark.base_weight, base * 1_000);
    assert_eq!(
        benchmark.component_weight,
        vec![ComponentSlope { name: component.to_string(), slope: slope * 1_000, error: 0 }]
    );
    // DB Reads/Writes are untouched
    assert_eq!(benchmark.base_reads, base);
    assert_eq!(
        benchmark.component_reads,
        vec![ComponentSlope { name: component.to_string(), slope, error: 0 }]
    );
    assert_eq!(benchmark.base_writes, base);
    assert_eq!(
        benchmark.component_writes,
        vec![ComponentSlope { name: component.to_string(), slope, error: 0 }]
    );
}

#[test]
fn map_results_works() {
    let mapped_results = map_results(
        &vec![
            test_data(b"first", b"first", BenchmarkParameter::a, 10, 3),
            test_data(b"first", b"second", BenchmarkParameter::b, 9, 2),
            test_data(b"second", b"first", BenchmarkParameter::c, 3, 4),
        ],
        &AnalysisChoice::default(),
    )
    .unwrap();

    let first_benchmark = &mapped_results
        .get(&("first_pallet".to_string(), "instance".to_string()))
        .unwrap()[0];
    assert_eq!(first_benchmark.name, "first_benchmark");
    check_data(first_benchmark, "a", 10, 3);

    let second_benchmark = &mapped_results
        .get(&("first_pallet".to_string(), "instance".to_string()))
        .unwrap()[1];
    assert_eq!(second_benchmark.name, "second_benchmark");
    check_data(second_benchmark, "b", 9, 2);

    let second_pallet_benchmark = &mapped_results
        .get(&("second_pallet".to_string(), "instance".to_string()))
        .unwrap()[0];
    assert_eq!(second_pallet_benchmark.name, "first_benchmark");
    check_data(second_pallet_benchmark, "c", 3, 4);
}

#[test]
fn map_results_median_slopes() {
    let mapped_results = map_results(
        &vec![test_data(b"first", b"first", BenchmarkParameter::a, 10, 3)],
        &AnalysisChoice::MedianSlopes,
    )
    .unwrap();
    let benchmark = &mapped_results.groups[0].benchmarks[0];
    assert_eq!(benchmark.base_weight, 10_000);
    assert_eq!(benchmark.component_weight[0].slope, 3_000);
    assert_eq!(benchmark.component_weight[0].error, 0);
    assert_eq!(benchmark.base_reads, 10);
}

#[test]
fn map_results_max() {
    let mapped_results = map_results(
        &vec![test_data(b"first", b"first", BenchmarkParameter::a, 10, 3)],
        &AnalysisChoice::Max,
    )
    .unwrap();
    let benchmark = &mapped_results.groups[0].benchmarks[0];
    assert_eq!(benchmark.base_weight, 10_000);
    assert_eq!(benchmark.component_writes[0].slope, 3);
}
