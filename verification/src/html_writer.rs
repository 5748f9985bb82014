//! Report pages: one page for each pallet instance, with details, summaries
//! and charts for a reader.

use vstd::prelude::*;
use crate::batch::BenchmarkBatchSplitResults;
use crate::error::Error;
use crate::fit::{choice_named, AnalysisChoice};
use crate::group::all_ready;
use crate::naming::{PathKind, RenderMode};
use crate::plan::{plan_of, plan_outputs, planned, OutputFile};
use crate::record::{BenchmarkCmd, RunMetadata, StorageInfo};

verus! {

/// Plans the report pages of a run: for every pallet instance, in the order
/// of first appearance, the file that its page goes to and the record that
/// the template is rendered with. The caller renders and writes them in this
/// order.
pub fn write_results(
    batches: &Vec<BenchmarkBatchSplitResults>,
    storage_info: &Vec<StorageInfo>,
    path: PathKind,
    cmd: &BenchmarkCmd,
    run: &RunMetadata,
) -> (r: Result<Vec<OutputFile>, Error>)
    ensures
        plan_of(r) == planned(
            batches@,
            storage_info.deep_view(),
            path,
            RenderMode::Report,
            cmd.analysis_text(),
            run@,
        ),
        choice_named(cmd.analysis_text()) == Some(AnalysisChoice::MedianSlopes) ==> (r is Ok
            <==> all_ready(batches@, AnalysisChoice::MedianSlopes)),
{
    plan_outputs(batches, storage_info, path, RenderMode::Report, cmd, run)
}

} // verus!
