//! Raw measurements: samples and the batches that hold them.

use vstd::prelude::*;
use crate::parameter::BenchmarkParameter;

verus! {

/// One entry of a sample's parameter assignment.
pub type Assignment = (BenchmarkParameter, u32);

/// One measured run of an operation.
#[derive(Clone, Debug, PartialEq, Eq)]
pub struct BenchmarkResult {
    /// The value each parameter had in this run.
    pub components: Vec<(BenchmarkParameter, u32)>,
    pub extrinsic_time: u128,
    pub storage_root_time: u128,
    pub reads: u32,
    pub repeat_reads: u32,
    pub writes: u32,
    pub repeat_writes: u32,
    pub proof_size: u32,
}

/// All runs of one operation of one pallet instance, timing runs and
/// storage-tracking runs apart.
#[derive(Clone, Debug, PartialEq, Eq)]
pub struct BenchmarkBatchSplitResults {
    pub pallet: String,
    pub instance: String,
    pub benchmark: String,
    pub time_results: Vec<BenchmarkResult>,
    pub db_results: Vec<BenchmarkResult>,
}

/// The metrics a cost model can be fitted to.
#[derive(Clone, Copy, Debug, PartialEq, Eq, Structural)]
pub enum BenchmarkSelector {
    ExtrinsicTime,
    StorageRootTime,
    Reads,
    RepeatReads,
    Writes,
    RepeatWrites,
}

impl BenchmarkResult {
    /// The sample's value of the selected metric.
    pub open spec fn metric(self, selector: BenchmarkSelector) -> u128 {
        match selector {
            BenchmarkSelector::ExtrinsicTime => self.extrinsic_time,
            BenchmarkSelector::StorageRootTime => self.storage_root_time,
            BenchmarkSelector::Reads => self.reads as u128,
            BenchmarkSelector::RepeatReads => self.repeat_reads as u128,
            BenchmarkSelector::Writes => self.writes as u128,
            BenchmarkSelector::RepeatWrites => self.repeat_writes as u128,
        }
    }

    /// Reads the selected metric off the sample.
    pub fn value(&self, selector: BenchmarkSelector) -> (r: u128)
        ensures
            r == self.metric(selector),
    {
        match selector {
            BenchmarkSelector::ExtrinsicTime => self.extrinsic_time,
            BenchmarkSelector::StorageRootTime => self.storage_root_time,
            BenchmarkSelector::Reads => self.reads as u128,
            BenchmarkSelector::RepeatReads => self.repeat_reads as u128,
            BenchmarkSelector::Writes => self.writes as u128,
            BenchmarkSelector::RepeatWrites => self.repeat_writes as u128,
        }
    }
}

/// The parameter assignments of a list of samples, sample by sample.
pub open spec fn assignments(samples: Seq<BenchmarkResult>) -> Seq<Seq<Assignment>> {
    Seq::new(samples.len(), |i: int| samples[i].components@)
}

/// The selected metric of a list of samples, sample by sample.
pub open spec fn metrics(samples: Seq<BenchmarkResult>, selector: BenchmarkSelector) -> Seq<u128> {
    Seq::new(samples.len(), |i: int| samples[i].metric(selector))
}

/// Collects the selected metric of every sample, in order.
pub fn measured(samples: &Vec<BenchmarkResult>, selector: BenchmarkSelector) -> (r: Vec<u128>)
    ensures
        r@ == metrics(samples@, selector),
{
    let mut out: Vec<u128> = Vec::new();
    let mut i: usize = 0;
    while i < samples.len()
        invariant
            i <= samples.len(),
            out@ == metrics(samples@, selector).take(i as int),
        decreases samples.len() - i,
    {
        out.push(samples[i].value(selector));
        assert(out@ =~= metrics(samples@, selector).take(i + 1));
        i += 1;
    }
    assert(out@ =~= metrics(samples@, selector));
    out
}

} // verus!
