use benchmark_writer::batch::{BenchmarkBatchSplitResults, BenchmarkResult};
use benchmark_writer::classify::Component;
use benchmark_writer::error::Error;
use benchmark_writer::fit::AnalysisChoice;
use benchmark_writer::naming::{OutputTarget, PathKind, RenderMode};
use benchmark_writer::parameter::BenchmarkParameter;
use benchmark_writer::plan::plan_outputs;
use benchmark_writer::record::{BenchmarkCmd, CmdData, RunMetadata, StorageInfo};
use benchmark_writer::report::ComponentSlope;

fn test_data(
    pallet: &str,
    instance: &str,
    benchmark: &str,
    param: BenchmarkParameter,
    base: u32,
    slope: u32,
) -> BenchmarkBatchSplitResults {
    let mut results = Vec::new();
    for i in 0..5 {
        results.push(BenchmarkResult {
            components: vec![(param, i), (BenchmarkParameter::z, 0)],
            extrinsic_time: (base + slope * i).into(),
            storage_root_time: (base + slope * i).into(),
            reads: base + slope * i,
            repeat_reads: 0,
            writes: base + slope * i,
            repeat_writes: 0,
            proof_size: 0,
        })
    }
    BenchmarkBatchSplitResults {
        pallet: format!("{}_pallet", pallet),
        instance: instance.to_string(),
        benchmark: format!("{}_benchmark", benchmark),
        time_results: results.clone(),
        db_results: results,
    }
}

fn batches() -> Vec<BenchmarkBatchSplitResults> {
    vec![
        test_data("first", "instance", "first", BenchmarkParameter::a, 10, 3),
        test_data("first", "instance", "second", BenchmarkParameter::b, 9, 2),
        test_data("second", "instance", "first", BenchmarkParameter::c, 3, 4),
    ]
}

fn cmd(analysis: Option<&str>) -> BenchmarkCmd {
    BenchmarkCmd { template: None, header: None, analysis: analysis.map(|name| name.to_string()) }
}

fn run() -> RunMetadata {
    RunMetadata {
        args: vec!["benchmark".to_string(), "--pallet=*".to_string()],
        date: "2021-09-01".to_string(),
        version: "4.0.0".to_string(),
        header: "// licence\n".to_string(),
    }
}

fn storage() -> Vec<StorageInfo> {
    vec![StorageInfo {
        pallet_name: b"System".to_vec(),
        storage_name: b"Account".to_vec(),
        prefix: vec![1, 2, 3],
        max_values: None,
        max_size: Some(80),
    }]
}

#[test]
fn three_batches_make_two_weight_files() {
    let files = benchmark_writer::writer::write_results(
        &batches(),
        &storage(),
        PathKind::Directory,
        &cmd(None),
        &run(),
    )
    .unwrap();
    assert_eq!(files.len(), 2);

    let first = &files[0];
    assert_eq!(
        first.target,
        OutputTarget { file_name: Some("first_pallet.rs".to_string()), mode: RenderMode::Source }
    );
    assert_eq!(first.data.pallet, "first_pallet");
    assert_eq!(first.data.instance, "instance");
    assert_eq!(first.data.args, run().args);
    assert_eq!(first.data.date, "2021-09-01");
    assert_eq!(first.data.version, "4.0.0");
    assert_eq!(first.data.header, "// licence\n");
    assert_eq!(first.data.cmd, CmdData { analysis_choice: AnalysisChoice::MinSquares });
    assert_eq!(first.data.storage_info, storage());
    assert_eq!(first.data.benchmarks.len(), 2);
    let expected = [("first_benchmark", "a", 10u128, 3u128), ("second_benchmark", "b", 9, 2)];
    for (data, (name, component, base, slope)) in first.data.benchmarks.iter().zip(expected) {
        assert_eq!(data.name, name);
        assert_eq!(
            data.components,
            vec![
                Component { name: component.to_string(), is_used: true },
                Component { name: "z".to_string(), is_used: false },
            ]
        );
        assert_eq!(data.base_weight, base * 1000);
        assert_eq!(
            data.component_weight,
            vec![ComponentSlope { name: component.to_string(), slope: slope * 1000, error: 0 }]
        );
        assert_eq!(data.base_reads, base);
        assert_eq!(
            data.component_reads,
            vec![ComponentSlope { name: component.to_string(), slope, error: 0 }]
        );
        assert_eq!(data.base_writes, base);
        assert_eq!(
            data.component_writes,
            vec![ComponentSlope { name: component.to_string(), slope, error: 0 }]
        );
    }

    let second = &files[1];
    assert_eq!(second.target.file_name, Some("second_pallet.rs".to_string()));
    assert_eq!(second.data.pallet, "second_pallet");
    assert_eq!(second.data.benchmarks.len(), 1);
    assert_eq!(second.data.benchmarks[0].name, "first_benchmark");
    assert_eq!(second.data.benchmarks[0].base_weight, 3000);
    assert_eq!(second.data.benchmarks[0].component_weight[0].slope, 4000);
}

#[test]
fn report_pages_have_their_own_extension_and_no_header() {
    let files = benchmark_writer::html_writer::write_results(
        &batches(),
        &storage(),
        PathKind::Directory,
        &cmd(Some("median-slopes")),
        &run(),
    )
    .unwrap();
    assert_eq!(files.len(), 2);
    assert_eq!(
        files[0].target,
        OutputTarget { file_name: Some("first_pallet.html".to_string()), mode: RenderMode::Report }
    );
    assert_eq!(files[1].target.file_name, Some("second_pallet.html".to_string()));
    assert_eq!(files[0].data.header, "");
    assert_eq!(files[0].data.cmd, CmdData { analysis_choice: AnalysisChoice::MedianSlopes });
    assert_eq!(files[1].data.benchmarks[0].base_weight, 3000);
}

#[test]
fn a_supplied_file_is_the_target_of_every_group() {
    let files = benchmark_writer::writer::write_results(
        &batches(),
        &Vec::new(),
        PathKind::File,
        &cmd(Some("max")),
        &run(),
    )
    .unwrap();
    assert_eq!(files.len(), 2);
    for file in files.iter() {
        assert_eq!(file.target, OutputTarget { file_name: None, mode: RenderMode::Source });
        assert!(file.data.storage_info.is_empty());
    }
    assert_eq!(files[0].data.pallet, "first_pallet");
    assert_eq!(files[1].data.pallet, "second_pallet");
}

#[test]
fn instances_of_one_pallet_get_files_of_their_own() {
    let batches = vec![
        test_data("first", "InstanceA", "first", BenchmarkParameter::a, 10, 3),
        test_data("first", "InstanceB", "first", BenchmarkParameter::a, 10, 3),
        test_data("second", "InstanceA", "first", BenchmarkParameter::a, 10, 3),
    ];
    let files = plan_outputs(
        &batches,
        &Vec::new(),
        PathKind::Directory,
        RenderMode::Source,
        &cmd(None),
        &run(),
    )
    .unwrap();
    let names: Vec<Option<String>> = files.iter().map(|file| file.target.file_name.clone()).collect();
    assert_eq!(
        names,
        vec![
            Some("first_pallet_instance_a.rs".to_string()),
            Some("first_pallet_instance_b.rs".to_string()),
            Some("second_pallet.rs".to_string()),
        ]
    );
}

#[test]
fn an_unknown_strategy_fails_before_anything_is_fitted() {
    let mut broken = batches();
    broken[0].time_results = Vec::new();
    assert_eq!(
        benchmark_writer::writer::write_results(
            &broken,
            &Vec::new(),
            PathKind::Directory,
            &cmd(Some("best")),
            &run()
        ),
        Err(Error::Config)
    );
    assert_eq!(
        benchmark_writer::html_writer::write_results(
            &batches(),
            &Vec::new(),
            PathKind::File,
            &cmd(Some("best")),
            &run()
        ),
        Err(Error::Config)
    );
}

#[test]
fn a_batch_that_cannot_be_fitted_leaves_no_plan() {
    let mut broken = batches();
    broken[2].time_results = Vec::new();
    assert_eq!(
        benchmark_writer::writer::write_results(
            &broken,
            &Vec::new(),
            PathKind::Directory,
            &cmd(None),
            &run()
        ),
        Err(Error::Analysis)
    );
}

#[test]
fn no_batches_leave_nothing_to_write() {
    assert_eq!(
        benchmark_writer::writer::write_results(
            &Vec::new(),
            &storage(),
            PathKind::Directory,
            &cmd(None),
            &run()
        ),
        Ok(Vec::new())
    );
}
