//! Reports of operations, grouped by the pallet instance that they belong to.

use vstd::prelude::*;
use crate::batch::{assignments, measured, metrics, BenchmarkBatchSplitResults, BenchmarkSelector};
use crate::classify::{
    assignment_rows, batch_rows, classification, classify_rows, used_of, used_parameters,
};
use crate::error::Error;
use crate::fit::{analyse, fitted, grid, ready_for, AnalysisChoice};
use crate::project::{project, project_row, projected};
use crate::report::{outcome_of, report_of, BenchmarkData, ReportSpec};

verus! {

/// What identifies a group: pallet and instance.
pub type Key = (Seq<char>, Seq<char>);

/// The reports of the operations of one pallet instance.
#[derive(Clone, Debug, PartialEq, Eq)]
pub struct ResultGroup {
    pub pallet: String,
    pub instance: String,
    pub benchmarks: Vec<BenchmarkData>,
}

/// What a [`ResultGroup`] says.
pub ghost struct GroupSpec {
    pub pallet: Seq<char>,
    pub instance: Seq<char>,
    pub benchmarks: Seq<ReportSpec>,
}

impl GroupSpec {
    /// The group's key.
    pub open spec fn key(self) -> Key {
        (self.pallet, self.instance)
    }
}

impl View for ResultGroup {
    type V = GroupSpec;

    open spec fn view(&self) -> GroupSpec {
        GroupSpec {
            pallet: self.pallet@,
            instance: self.instance@,
            benchmarks: self.benchmarks.deep_view(),
        }
    }
}

impl DeepView for ResultGroup {
    type V = GroupSpec;

    open spec fn deep_view(&self) -> GroupSpec {
        self@
    }
}

/// The groups of a run, in the order in which their keys first appeared. The
/// results of [`map_results`] are well formed: no two groups have one key.
#[derive(Clone, Debug, PartialEq, Eq)]
pub struct GroupedResults {
    pub groups: Vec<ResultGroup>,
}

impl View for GroupedResults {
    type V = Seq<GroupSpec>;

    open spec fn view(&self) -> Seq<GroupSpec> {
        self.groups.deep_view()
    }
}

/// The keys of the groups, in order.
pub open spec fn keys_of(groups: Seq<GroupSpec>) -> Seq<Key> {
    Seq::new(groups.len(), |i: int| groups[i].key())
}

/// No two groups have one key.
pub open spec fn distinct_keys(groups: Seq<GroupSpec>) -> bool {
    keys_of(groups).no_duplicates()
}

impl GroupedResults {
    /// What holds of grouped results: no two groups have one key.
    pub open spec fn well_formed(&self) -> bool {
        distinct_keys(self@)
    }
}

/// The samples of the batch can be handed to the strategy: every sample gives
/// every used parameter a value, and the points of time, of reads and of
/// writes are ready for it.
pub open spec fn inputs_ready(batch: BenchmarkBatchSplitResults, choice: AnalysisChoice) -> bool {
    let used = used_of(classification(batch_rows(batch)));
    match (
        projected(assignments(batch.time_results@), used),
        projected(assignments(batch.db_results@), used),
    ) {
        (Some(time_rows), Some(db_rows)) => ready_for(
            choice,
            time_rows,
            metrics(batch.time_results@, BenchmarkSelector::ExtrinsicTime),
        ) && ready_for(choice, db_rows, metrics(batch.db_results@, BenchmarkSelector::Reads))
            && ready_for(choice, db_rows, metrics(batch.db_results@, BenchmarkSelector::Writes)),
        _ => false,
    }
}

/// The samples of every batch can be handed to the strategy.
pub open spec fn all_ready(batches: Seq<BenchmarkBatchSplitResults>, choice: AnalysisChoice) -> bool {
    forall|i: int| 0 <= i < batches.len() ==> #[trigger] inputs_ready(batches[i], choice)
}

/// The report of a batch: parameters classified over all its samples, and a
/// model fitted to the time of its timing samples and to the reads and the
/// writes of its storage samples, each over the used parameters.
pub open spec fn report_for(batch: BenchmarkBatchSplitResults, choice: AnalysisChoice) -> Result<
    ReportSpec,
    Error,
> {
    let classes = classification(batch_rows(batch));
    let used = used_of(classes);
    match (
        projected(assignments(batch.time_results@), used),
        projected(assignments(batch.db_results@), used),
    ) {
        (Some(time_rows), Some(db_rows)) => report_of(
            batch.benchmark@,
            classes,
            fitted(
                choice,
                time_rows,
                metrics(batch.time_results@, BenchmarkSelector::ExtrinsicTime),
            ),
            fitted(choice, db_rows, metrics(batch.db_results@, BenchmarkSelector::Reads)),
            fitted(choice, db_rows, metrics(batch.db_results@, BenchmarkSelector::Writes)),
        ),
        _ => Err(Error::Analysis),
    }
}

/// The distinct keys, in the order in which they first appear.
pub open spec fn keys_seen(keys: Seq<Key>) -> Seq<Key>
    decreases keys.len(),
{
    if keys.len() == 0 {
        Seq::empty()
    } else {
        let before = keys_seen(keys.drop_last());
        if before.contains(keys.last()) {
            before
        } else {
            before.push(keys.last())
        }
    }
}

/// The reports that stand under the key, in the order of the entries.
pub open spec fn reports_under(entries: Seq<(Key, ReportSpec)>, key: Key) -> Seq<ReportSpec>
    decreases entries.len(),
{
    if entries.len() == 0 {
        Seq::empty()
    } else if entries.last().0 == key {
        reports_under(entries.drop_last(), key).push(entries.last().1)
    } else {
        reports_under(entries.drop_last(), key)
    }
}

/// The keys of the entries, in order.
pub open spec fn entry_keys(entries: Seq<(Key, ReportSpec)>) -> Seq<Key> {
    Seq::new(entries.len(), |i: int| entries[i].0)
}

/// The groups of the entries: one for each distinct key, in the order in
/// which the keys first appear, each with the reports under its key in the
/// order of the entries.
pub open spec fn grouped(entries: Seq<(Key, ReportSpec)>) -> Seq<GroupSpec> {
    let keys = keys_seen(entry_keys(entries));
    Seq::new(
        keys.len(),
        |i: int|
            GroupSpec {
                pallet: keys[i].0,
                instance: keys[i].1,
                benchmarks: reports_under(entries, keys[i]),
            },
    )
}

/// Every batch has a report.
pub open spec fn all_fit(batches: Seq<BenchmarkBatchSplitResults>, choice: AnalysisChoice) -> bool {
    forall|i: int| 0 <= i < batches.len() ==> (#[trigger] report_for(batches[i], choice)) is Ok
}

/// Key and report of every batch, in order.
pub open spec fn entries_of(batches: Seq<BenchmarkBatchSplitResults>, choice: AnalysisChoice) -> Seq<
    (Key, ReportSpec),
> {
    Seq::new(
        batches.len(),
        |i: int|
            (
                (batches[i].pallet@, batches[i].instance@),
                match report_for(batches[i], choice) {
                    Ok(report) => report,
                    Err(_) => arbitrary(),
                },
            ),
    )
}

/// The groups of the batches' reports, or the failure to fit one of them.
pub open spec fn map_results_spec(
    batches: Seq<BenchmarkBatchSplitResults>,
    choice: AnalysisChoice,
) -> Result<Seq<GroupSpec>, Error> {
    if all_fit(batches, choice) {
        Ok(grouped(entries_of(batches, choice)))
    } else {
        Err(Error::Analysis)
    }
}

/// What grouped results, or the failure to make them, say.
pub open spec fn grouping_of(outcome: Result<GroupedResults, Error>) -> Result<
    Seq<GroupSpec>,
    Error,
> {
    match outcome {
        Ok(results) => Ok(results@),
        Err(error) => Err(error),
    }
}

/// The distinct keys are distinct, and they are the keys that occur.
pub proof fn lemma_keys_seen(keys: Seq<Key>)
    ensures
        keys_seen(keys).no_duplicates(),
        forall|key: Key| #[trigger] keys_seen(keys).contains(key) <==> keys.contains(key),
    decreases keys.len(),
{
    if keys.len() > 0 {
        let front = keys.drop_last();
        let before = keys_seen(front);
        let after = keys_seen(keys);
        lemma_keys_seen(front);
        assert forall|key: Key| #[trigger] after.contains(key) <==> keys.contains(key) by {
            if after.contains(key) {
                let at = choose|at: int| 0 <= at < after.len() && after[at] == key;
                if at < before.len() {
                    assert(before[at] == key);
                    assert(before.contains(key));
                    let k = choose|k: int| 0 <= k < front.len() && front[k] == key;
                    assert(keys[k] == key);
                } else {
                    assert(keys[keys.len() - 1] == key);
                }
            }
            if keys.contains(key) {
                let k = choose|k: int| 0 <= k < keys.len() && keys[k] == key;
                if k < front.len() {
                    assert(front[k] == key);
                    assert(before.contains(key));
                    let at = choose|at: int| 0 <= at < before.len() && before[at] == key;
                    assert(after[at] == key);
                } else if before.contains(key) {
                    let at = choose|at: int| 0 <= at < before.len() && before[at] == key;
                    assert(after[at] == key);
                } else {
                    assert(after[before.len() as int] == key);
                }
            }
        }
    }
}

/// Under a key that no entry has stands no report.
pub proof fn lemma_no_reports(entries: Seq<(Key, ReportSpec)>, key: Key)
    requires
        !entry_keys(entries).contains(key),
    ensures
        reports_under(entries, key) == Seq::<ReportSpec>::empty(),
    decreases entries.len(),
{
    if entries.len() > 0 {
        let front = entries.drop_last();
        assert(entry_keys(entries)[entries.len() - 1] == entries.last().0);
        assert forall|k: int| 0 <= k < front.len() implies entry_keys(front)[k] != key by {
            assert(entry_keys(entries)[k] == entry_keys(front)[k]);
        }
        lemma_no_reports(front, key);
    }
}

/// Where all entries have one key, there is one group, and it holds all the
/// reports in the order of the entries.
pub proof fn lemma_single_pair(entries: Seq<(Key, ReportSpec)>, key: Key)
    requires
        entries.len() > 0,
        forall|i: int| 0 <= i < entries.len() ==> (#[trigger] entries[i]).0 == key,
    ensures
        grouped(entries) == seq![
            GroupSpec {
                pallet: key.0,
                instance: key.1,
                benchmarks: Seq::new(entries.len(), |i: int| entries[i].1),
            },
        ],
    decreases entries.len(),
{
    let front = entries.drop_last();
    let all = Seq::new(entries.len(), |i: int| entries[i].1);
    assert(entry_keys(entries).drop_last() =~= entry_keys(front));
    if front.len() == 0 {
        assert(keys_seen(entry_keys(front)) =~= Seq::<Key>::empty());
        assert(reports_under(front, key) =~= Seq::<ReportSpec>::empty());
    } else {
        assert forall|i: int| 0 <= i < front.len() implies (#[trigger] front[i]).0 == key by {
            assert(front[i] == entries[i]);
        }
        lemma_single_pair(front, key);
        assert(grouped(front).len() == 1);
        assert(grouped(front).len() == keys_seen(entry_keys(front)).len());
        assert(keys_seen(entry_keys(front)).len() == 1);
        assert(grouped(front)[0].key() == keys_seen(entry_keys(front))[0]);
        assert(keys_seen(entry_keys(front))[0] == key);
    }
    assert(entry_keys(entries).last() == key);
    assert(keys_seen(entry_keys(entries)) =~= seq![key]);
    assert(reports_under(entries, key) =~= all);
    assert(grouped(entries) =~= seq![
        GroupSpec { pallet: key.0, instance: key.1, benchmarks: all },
    ]);
}

/// Every key that occurs has exactly one group, and the group holds the
/// reports under the key in the order of the entries.
pub proof fn lemma_one_group(entries: Seq<(Key, ReportSpec)>, i: int)
    requires
        0 <= i < entries.len(),
    ensures
        exists|g: int|
            0 <= g < grouped(entries).len() && (#[trigger] grouped(entries)[g]).key()
                == entries[i].0 && grouped(entries)[g].benchmarks == reports_under(
                entries,
                entries[i].0,
            ),
        forall|g: int, h: int|
            0 <= g < grouped(entries).len() && 0 <= h < grouped(entries).len() && (
            #[trigger] grouped(entries)[g]).key() == (#[trigger] grouped(entries)[h]).key() ==> g
                == h,
{
    let keys = keys_seen(entry_keys(entries));
    lemma_keys_seen(entry_keys(entries));
    assert(entry_keys(entries)[i] == entries[i].0);
    assert(keys.contains(entries[i].0));
    let g = choose|g: int| 0 <= g < keys.len() && keys[g] == entries[i].0;
    assert(grouped(entries)[g].key() == entries[i].0);
    assert forall|g: int, h: int|
        0 <= g < grouped(entries).len() && 0 <= h < grouped(entries).len() && (
        #[trigger] grouped(entries)[g]).key() == (#[trigger] grouped(entries)[h]).key() implies g
        == h by {
        assert(keys[g] == keys[h]);
    }
}

/// Fits the cost models of a batch and builds its report. With the median of
/// slopes there is a report exactly if the samples can be handed to it.
pub fn get_benchmark_data(batch: &BenchmarkBatchSplitResults, choice: AnalysisChoice) -> (r: Result<
    BenchmarkData,
    Error,
>)
    ensures
        outcome_of(r) == report_for(*batch, choice),
        choice == AnalysisChoice::MedianSlopes ==> (r is Ok <==> inputs_ready(*batch, choice)),
{
    let rows = assignment_rows(batch);
    let classes = classify_rows(&rows);
    let used = used_parameters(&classes);
    let time_rows = project(&batch.time_results, &used);
    let db_rows = project(&batch.db_results, &used);
    match (time_rows, db_rows) {
        (Some(time_values), Some(db_values)) => {
            let times = measured(&batch.time_results, BenchmarkSelector::ExtrinsicTime);
            let reads = measured(&batch.db_results, BenchmarkSelector::Reads);
            let writes = measured(&batch.db_results, BenchmarkSelector::Writes);
            let time_fit = analyse(choice, &time_values, &times);
            let reads_fit = analyse(choice, &db_values, &reads);
            let writes_fit = analyse(choice, &db_values, &writes);
            proof {
                if choice == AnalysisChoice::MedianSlopes && inputs_ready(*batch, choice) {
                    assert(grid(time_values@)[0] == project_row(
                        assignments(batch.time_results@)[0],
                        used@,
                    ));
                    assert(grid(db_values@)[0] == project_row(
                        assignments(batch.db_results@)[0],
                        used@,
                    ));
                }
            }
            BenchmarkData::from_fits(
                batch.benchmark.clone(),
                &classes,
                time_fit,
                reads_fit,
                writes_fit,
            )
        },
        _ => Err(Error::Analysis),
    }
}

/// The position of the group with the key, if there is one.
fn find_group(groups: &Vec<ResultGroup>, pallet: &String, instance: &String) -> (r: Option<usize>)
    ensures
        match r {
            Some(at) => at < groups.len() && groups@[at as int]@.key() == (pallet@, instance@),
            None => forall|g: int|
                0 <= g < groups.len() ==> (#[trigger] groups@[g])@.key() != (pallet@, instance@),
        },
{
    let mut g: usize = 0;
    while g < groups.len()
        invariant
            g <= groups.len(),
            forall|k: int| 0 <= k < g ==> (#[trigger] groups@[k])@.key() != (pallet@, instance@),
        decreases groups.len() - g,
    {
        if groups[g].pallet == *pallet && groups[g].instance == *instance {
            return Some(g);
        }
        g += 1;
    }
    None
}

/// Fits the cost models of every batch and groups the reports by pallet and
/// instance. Groups stand in the order in which their keys first appear, and
/// the reports of a group in the order of their batches, and no two groups
/// have one key. Fails where a batch cannot be fitted; with the median of
/// slopes that is where the samples of a batch cannot be handed to it.
pub fn map_results(batches: &Vec<BenchmarkBatchSplitResults>, choice: &AnalysisChoice) -> (r: Result<
    GroupedResults,
    Error,
>)
    ensures
        grouping_of(r) == map_results_spec(batches@, *choice),
        r matches Ok(results) ==> results.well_formed(),
        *choice == AnalysisChoice::MedianSlopes ==> (r is Ok <==> all_ready(batches@, *choice)),
{
    let ghost all = entries_of(batches@, *choice);
    let mut groups: Vec<ResultGroup> = Vec::new();
    let mut i: usize = 0;
    while i < batches.len()
        invariant
            i <= batches.len(),
            all == entries_of(batches@, *choice),
            forall|k: int| 0 <= k < i ==> (#[trigger] report_for(batches@[k], *choice)) is Ok,
            *choice == AnalysisChoice::MedianSlopes ==> forall|k: int|
                0 <= k < i ==> #[trigger] inputs_ready(batches@[k], *choice),
            groups.deep_view() == grouped(all.take(i as int)),
        decreases batches.len() - i,
    {
        let batch = &batches[i];
        let ghost done = all.take(i as int);
        let ghost next = all.take(i + 1);
        let ghost keys = keys_seen(entry_keys(done));
        let ghost key = (batch.pallet@, batch.instance@);
        let data = match get_benchmark_data(batch, *choice) {
            Ok(data) => data,
            Err(error) => {
                assert(report_for(batches@[i as int], *choice) is Err);
                assert(*choice == AnalysisChoice::MedianSlopes ==> !inputs_ready(
                    batches@[i as int],
                    *choice,
                ));
                return Err(error);
            },
        };
        proof {
            assert(next.drop_last() =~= done);
            assert(next.last() == (key, data@));
            assert(entry_keys(next).drop_last() =~= entry_keys(done));
            assert(entry_keys(next).last() == key);
            lemma_keys_seen(entry_keys(done));
            assert(groups.deep_view().len() == groups@.len());
            assert(grouped(done).len() == keys.len());
            assert(groups.len() == keys.len());
            assert forall|g: int| 0 <= g < groups.len() implies (#[trigger] groups@[g])@
                == grouped(done)[g] by {
                assert(groups.deep_view()[g] == groups@[g]@);
            }
        }
        let ghost before = groups@;
        match find_group(&groups, &batch.pallet, &batch.instance) {
            Some(at) => {
                groups[at].benchmarks.push(data);
                proof {
                    assert(keys[at as int] == key);
                    assert(keys.contains(key));
                    assert(keys_seen(entry_keys(next)) == keys);
                    assert forall|g: int| 0 <= g < groups.len() implies (#[trigger] groups@[g])@
                        == grouped(next)[g] by {
                        if g == at {
                            assert(groups@[g].benchmarks.deep_view() =~= before[g].benchmarks.deep_view().push(
                                data@,
                            ));
                        } else {
                            assert(groups@[g] == before[g]);
                            assert(keys[g] != key);
                        }
                    }
                    assert(groups.deep_view() =~= grouped(next));
                }
            },
            None => {
                let mut benchmarks: Vec<BenchmarkData> = Vec::new();
                benchmarks.push(data);
                groups.push(
                    ResultGroup {
                        pallet: batch.pallet.clone(),
                        instance: batch.instance.clone(),
                        benchmarks,
                    },
                );
                proof {
                    assert forall|g: int| 0 <= g < keys.len() implies keys[g] != key by {
                        assert(before[g]@.key() == grouped(done)[g].key());
                    }
                    assert(!keys.contains(key));
                    assert(!entry_keys(done).contains(key));
                    lemma_no_reports(done, key);
                    assert(keys_seen(entry_keys(next)) == keys.push(key));
                    assert forall|g: int| 0 <= g < groups.len() implies (#[trigger] groups@[g])@
                        == grouped(next)[g] by {
                        if g < before.len() {
                            assert(groups@[g] == before[g]);
                            assert(keys[g] != key);
                        } else {
                            assert(groups@[g].benchmarks.deep_view() =~= seq![data@]);
                            assert(reports_under(next, key) =~= seq![data@]);
                        }
                    }
                    assert(groups.deep_view() =~= grouped(next));
                }
            },
        }
        i += 1;
    }
    assert(all.take(batches.len() as int) =~= all);
    proof {
        lemma_keys_seen(entry_keys(all));
        assert(keys_of(grouped(all)) =~= keys_seen(entry_keys(all)));
    }
    Ok(GroupedResults { groups })
}

impl GroupedResults {
    /// The reports of the group with the key, if there is such a group.
    pub fn get(&self, key: &(String, String)) -> (r: Option<&Vec<BenchmarkData>>)
        ensures
            match r {
                Some(benchmarks) => exists|g: int|
                    0 <= g < self@.len() && (#[trigger] self@[g]).key() == (key.0@, key.1@)
                        && self@[g].benchmarks == benchmarks.deep_view(),
                None => forall|g: int|
                    0 <= g < self@.len() ==> (#[trigger] self@[g]).key() != (key.0@, key.1@),
            },
    {
        match find_group(&self.groups, &key.0, &key.1) {
            Some(at) => {
                assert(self@[at as int] == self.groups@[at as int]@);
                Some(&self.groups[at].benchmarks)
            },
            None => {
                assert forall|g: int| 0 <= g < self@.len() implies (#[trigger] self@[g]).key() != (
                    key.0@,
                    key.1@,
                ) by {
                    assert(self@[g] == self.groups@[g]@);
                }
                None
            },
        }
    }
}

} // verus!
