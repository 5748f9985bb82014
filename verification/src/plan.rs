//! From measurements to the artifacts of a run: which files are written, and
//! the record that each is rendered with.

use vstd::prelude::*;
use crate::batch::BenchmarkBatchSplitResults;
use crate::error::Error;
use crate::fit::{choice_named, AnalysisChoice};
use crate::group::{
    all_ready, keys_of, map_results, map_results_spec, GroupSpec, ResultGroup,
};
use crate::naming::{keys_in, name_for, target_of, OutputTarget, PathKind, RenderMode, TargetSpec};
use crate::record::{
    copy_storage, copy_texts, BenchmarkCmd, CmdData, RecordSpec, RunMetadata, RunSpec,
    StorageInfo, StorageSpec, TemplateData,
};

verus! {

/// One artifact of a run: where it goes, and the record it is rendered with.
#[derive(Clone, Debug, PartialEq, Eq)]
pub struct OutputFile {
    pub target: OutputTarget,
    pub data: TemplateData,
}

/// What an [`OutputFile`] says.
pub ghost struct OutputSpec {
    pub target: TargetSpec,
    pub data: RecordSpec,
}

impl View for OutputFile {
    type V = OutputSpec;

    open spec fn view(&self) -> OutputSpec {
        OutputSpec { target: self.target@, data: self.data@ }
    }
}

impl DeepView for OutputFile {
    type V = OutputSpec;

    open spec fn deep_view(&self) -> OutputSpec {
        self@
    }
}

/// The header of a record: the run's header for source code, none for a
/// report page.
pub open spec fn header_for(mode: RenderMode, run: RunSpec) -> Seq<char> {
    match mode {
        RenderMode::Source => run.header,
        RenderMode::Report => Seq::empty(),
    }
}

/// The artifact of one group among the groups of a run.
pub open spec fn output_of(
    groups: Seq<GroupSpec>,
    at: int,
    storage: Seq<StorageSpec>,
    kind: PathKind,
    mode: RenderMode,
    cmd: CmdData,
    run: RunSpec,
) -> OutputSpec {
    OutputSpec {
        target: target_of(keys_of(groups), groups[at].pallet, groups[at].instance, kind, mode),
        data: RecordSpec {
            args: run.args,
            date: run.date,
            version: run.version,
            pallet: groups[at].pallet,
            instance: groups[at].instance,
            header: header_for(mode, run),
            cmd,
            storage_info: storage,
            benchmarks: groups[at].benchmarks,
        },
    }
}

/// The artifacts of the groups of a run, one for each group, in the groups'
/// order.
pub open spec fn outputs_of(
    groups: Seq<GroupSpec>,
    storage: Seq<StorageSpec>,
    kind: PathKind,
    mode: RenderMode,
    cmd: CmdData,
    run: RunSpec,
) -> Seq<OutputSpec> {
    Seq::new(groups.len(), |at: int| output_of(groups, at, storage, kind, mode, cmd, run))
}

/// The artifacts of a run, or why there are none: an unknown strategy name is
/// a configuration error, and a batch that cannot be fitted an analysis
/// error.
pub open spec fn planned(
    batches: Seq<BenchmarkBatchSplitResults>,
    storage: Seq<StorageSpec>,
    kind: PathKind,
    mode: RenderMode,
    analysis: Option<Seq<char>>,
    run: RunSpec,
) -> Result<Seq<OutputSpec>, Error> {
    match choice_named(analysis) {
        None => Err(Error::Config),
        Some(choice) => match map_results_spec(batches, choice) {
            Err(error) => Err(error),
            Ok(groups) => Ok(
                outputs_of(groups, storage, kind, mode, CmdData { analysis_choice: choice }, run),
            ),
        },
    }
}

/// What planned artifacts, or the failure to plan them, say.
pub open spec fn plan_of(outcome: Result<Vec<OutputFile>, Error>) -> Result<
    Seq<OutputSpec>,
    Error,
> {
    match outcome {
        Ok(files) => Ok(files.deep_view()),
        Err(error) => Err(error),
    }
}

/// Plans the artifacts of a run: resolves the fitting strategy, fits and
/// groups the batches, and gives every group, in order, its target and its
/// record. Nothing is read or written. With the median of slopes the plan
/// succeeds exactly if the samples of every batch can be handed to it.
pub fn plan_outputs(
    batches: &Vec<BenchmarkBatchSplitResults>,
    storage_info: &Vec<StorageInfo>,
    kind: PathKind,
    mode: RenderMode,
    cmd: &BenchmarkCmd,
    run: &RunMetadata,
) -> (r: Result<Vec<OutputFile>, Error>)
    ensures
        plan_of(r) == planned(
            batches@,
            storage_info.deep_view(),
            kind,
            mode,
            cmd.analysis_text(),
            run@,
        ),
        choice_named(cmd.analysis_text()) == Some(AnalysisChoice::MedianSlopes) ==> (r is Ok
            <==> all_ready(batches@, AnalysisChoice::MedianSlopes)),
{
    let choice = match cmd.analysis_choice() {
        Ok(choice) => choice,
        Err(error) => {
            return Err(error);
        },
    };
    let results = match map_results(batches, &choice) {
        Ok(results) => results,
        Err(error) => {
            return Err(error);
        },
    };
    let keys = results.keys();
    let ghost all = results@;
    let ghost expected = outputs_of(
        all,
        storage_info.deep_view(),
        kind,
        mode,
        CmdData { analysis_choice: choice },
        run@,
    );
    let mut groups: Vec<ResultGroup> = results.groups;
    let ghost initial = groups@;
    let count = groups.len();
    let mut files: Vec<OutputFile> = Vec::new();
    let mut i: usize = 0;
    while i < count
        invariant
            i <= count == initial.len(),
            all.len() == count,
            forall|k: int| 0 <= k < count ==> (#[trigger] initial[k])@ == all[k],
            groups@ == initial.skip(i as int),
            keys_in(keys@) == keys_of(all),
            expected == outputs_of(
                all,
                storage_info.deep_view(),
                kind,
                mode,
                CmdData { analysis_choice: choice },
                run@,
            ),
            files.len() == i,
            forall|k: int| 0 <= k < i ==> (#[trigger] files@[k])@ == expected[k],
        decreases count - i,
    {
        assert(groups@[0] == initial[i as int]);
        let group = groups.remove(0);
        assert(groups@ =~= initial.skip(i + 1));
        assert(group@ == all[i as int]);
        let target = name_for(group.pallet.as_str(), group.instance.as_str(), &keys, kind, mode);
        let header = match mode {
            RenderMode::Source => run.header.clone(),
            RenderMode::Report => String::new(),
        };
        let data = TemplateData {
            args: copy_texts(&run.args),
            date: run.date.clone(),
            version: run.version.clone(),
            pallet: group.pallet,
            instance: group.instance,
            header,
            cmd: CmdData { analysis_choice: choice },
            storage_info: copy_storage(storage_info),
            benchmarks: group.benchmarks,
        };
        files.push(OutputFile { target, data });
        i += 1;
    }
    assert(files.deep_view() =~= expected);
    Ok(files)
}

} // verus!
