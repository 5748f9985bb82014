//! The record that a template is rendered with, and what goes into it.

use vstd::prelude::*;
use crate::error::Error;
use crate::fit::{analysis_choice, choice_named, AnalysisChoice};
use crate::report::{BenchmarkData, ReportSpec};

verus! {

/// What is known of one storage item. Nothing here is interpreted; it is
/// handed on to the template as it came.
#[derive(Clone, Debug, PartialEq, Eq)]
pub struct StorageInfo {
    pub pallet_name: Vec<u8>,
    pub storage_name: Vec<u8>,
    pub prefix: Vec<u8>,
    pub max_values: Option<u32>,
    pub max_size: Option<u32>,
}

/// What a [`StorageInfo`] says.
pub ghost struct StorageSpec {
    pub pallet_name: Seq<u8>,
    pub storage_name: Seq<u8>,
    pub prefix: Seq<u8>,
    pub max_values: Option<u32>,
    pub max_size: Option<u32>,
}

impl View for StorageInfo {
    type V = StorageSpec;

    open spec fn view(&self) -> StorageSpec {
        StorageSpec {
            pallet_name: self.pallet_name@,
            storage_name: self.storage_name@,
            prefix: self.prefix@,
            max_values: self.max_values,
            max_size: self.max_size,
        }
    }
}

impl DeepView for StorageInfo {
    type V = StorageSpec;

    open spec fn deep_view(&self) -> StorageSpec {
        self@
    }
}

/// The options of a run that this library reads.
#[derive(Clone, Debug, PartialEq, Eq)]
pub struct BenchmarkCmd {
    /// The file of a template that replaces the built-in one.
    pub template: Option<String>,
    /// The file of a text that is put before the generated code.
    pub header: Option<String>,
    /// The name of the fitting strategy.
    pub analysis: Option<String>,
}

impl BenchmarkCmd {
    /// The configured strategy name as plain text.
    pub open spec fn analysis_text(self) -> Option<Seq<char>> {
        match self.analysis {
            Some(text) => Some(text@),
            None => None,
        }
    }

    /// The fitting strategy that the options select. An unknown name is a
    /// configuration error.
    pub fn analysis_choice(&self) -> (r: Result<AnalysisChoice, Error>)
        ensures
            r == match choice_named(self.analysis_text()) {
                Some(choice) => Ok::<AnalysisChoice, Error>(choice),
                None => Err(Error::Config),
            },
    {
        match &self.analysis {
            Some(text) => analysis_choice(Some(text.as_str())),
            None => analysis_choice(None),
        }
    }
}

/// What of the options is handed on to the template.
#[derive(Clone, Copy, Debug, PartialEq, Eq, Structural)]
pub struct CmdData {
    pub analysis_choice: AnalysisChoice,
}

/// What is captured once at the start of a run.
#[derive(Clone, Debug, PartialEq, Eq)]
pub struct RunMetadata {
    /// The arguments that the program was started with.
    pub args: Vec<String>,
    /// The day of the run.
    pub date: String,
    /// The version of the program.
    pub version: String,
    /// The text that is put before generated code; empty where none was given.
    pub header: String,
}

/// What a [`RunMetadata`] says.
pub ghost struct RunSpec {
    pub args: Seq<Seq<char>>,
    pub date: Seq<char>,
    pub version: Seq<char>,
    pub header: Seq<char>,
}

impl View for RunMetadata {
    type V = RunSpec;

    open spec fn view(&self) -> RunSpec {
        RunSpec {
            args: self.args.deep_view(),
            date: self.date@,
            version: self.version@,
            header: self.header@,
        }
    }
}

/// The record that the template of one group is rendered with.
#[derive(Clone, Debug, PartialEq, Eq)]
pub struct TemplateData {
    pub args: Vec<String>,
    pub date: String,
    pub version: String,
    pub pallet: String,
    pub instance: String,
    pub header: String,
    pub cmd: CmdData,
    pub storage_info: Vec<StorageInfo>,
    pub benchmarks: Vec<BenchmarkData>,
}

/// What a [`TemplateData`] says.
pub ghost struct RecordSpec {
    pub args: Seq<Seq<char>>,
    pub date: Seq<char>,
    pub version: Seq<char>,
    pub pallet: Seq<char>,
    pub instance: Seq<char>,
    pub header: Seq<char>,
    pub cmd: CmdData,
    pub storage_info: Seq<StorageSpec>,
    pub benchmarks: Seq<ReportSpec>,
}

impl View for TemplateData {
    type V = RecordSpec;

    open spec fn view(&self) -> RecordSpec {
        RecordSpec {
            args: self.args.deep_view(),
            date: self.date@,
            version: self.version@,
            pallet: self.pallet@,
            instance: self.instance@,
            header: self.header@,
            cmd: self.cmd,
            storage_info: self.storage_info.deep_view(),
            benchmarks: self.benchmarks.deep_view(),
        }
    }
}

/// A copy of the texts.
pub fn copy_texts(texts: &Vec<String>) -> (r: Vec<String>)
    ensures
        r.deep_view() == texts.deep_view(),
{
    let mut out: Vec<String> = Vec::new();
    let mut i: usize = 0;
    while i < texts.len()
        invariant
            i <= texts.len(),
            out.len() == i,
            forall|k: int| 0 <= k < i ==> (#[trigger] out@[k])@ == texts@[k]@,
        decreases texts.len() - i,
    {
        out.push(texts[i].clone());
        i += 1;
    }
    assert(out.deep_view() =~= texts.deep_view());
    out
}

/// A copy of the bytes.
fn copy_bytes(bytes: &Vec<u8>) -> (r: Vec<u8>)
    ensures
        r@ == bytes@,
{
    let mut out: Vec<u8> = Vec::new();
    let mut i: usize = 0;
    while i < bytes.len()
        invariant
            i <= bytes.len(),
            out@ == bytes@.take(i as int),
        decreases bytes.len() - i,
    {
        out.push(bytes[i]);
        assert(out@ =~= bytes@.take(i + 1));
        i += 1;
    }
    assert(out@ =~= bytes@);
    out
}

/// A copy of the storage items.
pub fn copy_storage(items: &Vec<StorageInfo>) -> (r: Vec<StorageInfo>)
    ensures
        r.deep_view() == items.deep_view(),
{
    let mut out: Vec<StorageInfo> = Vec::new();
    let mut i: usize = 0;
    while i < items.len()
        invariant
            i <= items.len(),
            out.len() == i,
            forall|k: int| 0 <= k < i ==> (#[trigger] out@[k])@ == items@[k]@,
        decreases items.len() - i,
    {
        let item = &items[i];
        out.push(
            StorageInfo {
                pallet_name: copy_bytes(&item.pallet_name),
                storage_name: copy_bytes(&item.storage_name),
                prefix: copy_bytes(&item.prefix),
                max_values: item.max_values,
                max_size: item.max_size,
            },
        );
        i += 1;
    }
    assert(out.deep_view() =~= items.deep_view());
    out
}

} // verus!
